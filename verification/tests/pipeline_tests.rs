//! Tests of the render half: resolution and layout, config sizing, the
//! overflow-retry protocol, the shader catalog, and the recorded
//! dispatch graph's resource lifetimes.

use vello_core::config::{BumpAllocators, RenderConfig};
use vello_core::draw::{Color, DRAW_TAG_COLOR};
use vello_core::engine::Command;
use vello_core::encoding::{Brush, Encoding};
use vello_core::math::F32_BITS_NEG_ONE;
use vello_core::path::PathCommand;
use vello_core::render::{Render, RenderParams};
use vello_core::resolve::Resolver;
use vello_core::scene::{Fill, Scene};
use vello_core::shaders::{full_shaders, BindType, ShaderCatalog};

fn red() -> Color {
    Color { r: 255, g: 0, b: 0, a: 255 }
}

fn unit_square() -> Vec<PathCommand> {
    let z = 0f32.to_bits();
    let one = 1f32.to_bits();
    vec![
        PathCommand::MoveTo { x: z, y: z },
        PathCommand::LineTo { x: one, y: z },
        PathCommand::LineTo { x: one, y: one },
        PathCommand::LineTo { x: z, y: one },
        PathCommand::Close,
    ]
}

fn identity() -> vello_core::math::Transform {
    vello_core::math::Transform {
        m0: 1f32.to_bits(),
        m1: 0,
        m2: 0,
        m3: 1f32.to_bits(),
        t0: 0,
        t1: 0,
    }
}

/// A red unit square at the identity transform: the scene of the
/// single-pixel scenario. The pixel equality itself needs the kernels,
/// which live outside this crate; here the encoding, layout and packed
/// buffer are checked exactly.
fn red_square_scene() -> Scene {
    let mut scene = Scene::new();
    scene.fill(Fill::NonZero, identity(), &Brush::Solid(red()), None, &unit_square());
    scene
}

#[test]
fn resolve_red_square_layout() {
    let scene = red_square_scene();
    let e = scene.data();
    let mut resolver = Resolver::new();
    let mut packed: Vec<u8> = Vec::new();
    let layout = resolver.resolve(e, &mut packed);
    assert_eq!(layout.n_paths, 1);
    assert_eq!(layout.n_draw_objects, 1);
    assert_eq!(layout.n_clips, 0);
    assert_eq!(layout.path_tag_base, 0);
    // Six tags (the identity transform deduplicates against the seeded
    // entry: a line-width marker, four segments, one terminator), padded
    // to two words.
    assert_eq!(e.path_tags.len(), 6);
    assert_eq!(layout.path_data_base, 2);
    // Five points of two words each.
    assert_eq!(layout.draw_tag_base, 2 + 10);
    assert_eq!(layout.draw_data_base, 13);
    assert_eq!(layout.transform_base, 14);
    // Two transforms (the seed and the explicit identity... the identity
    // deduplicates against the seed, leaving one).
    assert_eq!(e.transforms.len(), 1);
    assert_eq!(layout.linewidth_base, 14 + 6);
    // Three seeded sentinels plus the fill's entry of three words.
    assert_eq!(layout.dasharray_base, 20 + 6);
    assert_eq!(layout.pattern_base, 26);
    assert_eq!(layout.size_in_words, 26);
    assert_eq!(packed.len(), 4 * layout.size_in_words as usize);
    // The packed draw tag region holds the color tag.
    let dt = 4 * layout.draw_tag_base as usize;
    assert_eq!(&packed[dt..dt + 4], &DRAW_TAG_COLOR.to_le_bytes());
    // The packed draw data region holds the packed red.
    let dd = 4 * layout.draw_data_base as usize;
    assert_eq!(&packed[dd..dd + 4], &0xFF0000FFu32.to_le_bytes());
    // The line-width region opens with the seeded sentinels.
    let lw = 4 * layout.linewidth_base as usize;
    assert_eq!(&packed[lw..lw + 4], &(-1f32).to_bits().to_le_bytes());
}

#[test]
fn resolve_dedups_equal_ramps() {
    let mut e = Encoding::new();
    e.reset(false);
    let stops = vec![
        vello_core::resources::ColorStop { offset: 0f32.to_bits(), color: red() },
        vello_core::resources::ColorStop {
            offset: 1f32.to_bits(),
            color: Color { r: 0, g: 0, b: 255, a: 255 },
        },
    ];
    let g = vello_core::draw::DrawLinearGradient {
        index: 0,
        p0x: 0,
        p0y: 0,
        p1x: 1f32.to_bits(),
        p1y: 0,
    };
    e.encode_linewidth(F32_BITS_NEG_ONE, None);
    e.encode_shape(&unit_square(), true);
    e.encode_linear_gradient(g, &stops, vello_core::resources::Extend::Pad);
    e.encode_shape(&unit_square(), true);
    e.encode_linear_gradient(g, &stops, vello_core::resources::Extend::Pad);
    let mut resolver = Resolver::new();
    let mut packed: Vec<u8> = Vec::new();
    let layout = resolver.resolve(&e, &mut packed);
    // Identical stop sequences share one atlas row.
    assert_eq!(resolver.ramp_rows.len(), 1);
    assert_eq!(resolver.ramp_rows[0].stops.len(), 2);
    // Both gradient payloads carry the shared row's index with the
    // extend mode in the low bits: row 0, pad mode.
    let dd = 4 * layout.draw_data_base as usize;
    match e.resources.patches[0] {
        vello_core::resources::Patch::Ramp { draw_data_offset, .. } => {
            let at = dd + draw_data_offset;
            assert_eq!(&packed[at..at + 4], &0u32.to_le_bytes());
        }
        _ => panic!("expected a ramp patch"),
    }
    match e.resources.patches[1] {
        vello_core::resources::Patch::Ramp { draw_data_offset, .. } => {
            let at = dd + draw_data_offset;
            assert_eq!(&packed[at..at + 4], &0u32.to_le_bytes());
        }
        _ => panic!("expected a ramp patch"),
    }
}

#[test]
fn config_sizing_counts() {
    let scene = red_square_scene();
    let mut resolver = Resolver::new();
    let mut packed: Vec<u8> = Vec::new();
    let layout = resolver.resolve(scene.data(), &mut packed);
    let config = RenderConfig::new(&layout, 64, 48, 0, None);
    assert_eq!(config.gpu.width_in_tiles, 4);
    assert_eq!(config.gpu.height_in_tiles, 3);
    assert_eq!(config.workgroup_counts.fine.x, 4);
    assert_eq!(config.workgroup_counts.fine.y, 3);
    // One workgroup covers the single path and the single draw object.
    assert_eq!(config.workgroup_counts.bbox_clear.x, 1);
    assert_eq!(config.workgroup_counts.draw_leaf.x, 1);
    assert!(!config.workgroup_counts.use_large_path_scan);
    assert!(!config.workgroup_counts.use_patterns);
    assert_eq!(config.buffer_sizes.path_bboxes.len, 1);
    assert_eq!(config.buffer_sizes.path_bboxes.size_bytes, 24);
    // The tile arena covers the viewport tiles plus the per-path term.
    assert_eq!(config.buffer_sizes.tiles.len, 12 + 64);
    assert_eq!(config.gpu.layout, layout);
}

#[test]
fn overflow_retry_protocol() {
    let scene = red_square_scene();
    let mut resolver = Resolver::new();
    let mut packed: Vec<u8> = Vec::new();
    let layout = resolver.resolve(scene.data(), &mut packed);
    // Deliberately tiny viewport-independent sizes, then counters that a
    // complex scene would report.
    let config = RenderConfig::new(&layout, 16, 16, 0, None);
    let sizes = config.buffer_sizes;
    let bump = BumpAllocators {
        failed: 0,
        binning: 10,
        ptcl: (sizes.ptcl.len as u32) + 5000,
        tile: (sizes.tiles.len as u32) + 123,
        segments: 7,
        blend: 0,
    };
    assert!(bump.overflowed(&sizes));
    let corrected = bump.corrected(&sizes);
    assert!(!bump.overflowed(&corrected));
    assert!(corrected.ptcl.len >= bump.ptcl as u64);
    assert!(corrected.tiles.len >= bump.tile as u64);
    // Untouched arenas keep their sizes.
    assert_eq!(corrected.bin_data, sizes.bin_data);
    assert_eq!(corrected.segments, sizes.segments);
}

#[test]
fn full_shaders_ids_distinct() {
    let mut catalog = ShaderCatalog::new();
    let fs = full_shaders(&mut catalog);
    let ids = [
        fs.pathtag_reduce.0,
        fs.pathtag_reduce2.0,
        fs.pathtag_scan1.0,
        fs.pathtag_scan.0,
        fs.pathtag_scan_large.0,
        fs.bbox_clear.0,
        fs.pathseg.0,
        fs.draw_reduce.0,
        fs.draw_leaf.0,
        fs.clip_reduce.0,
        fs.clip_leaf.0,
        fs.flatten.0,
        fs.pattern_setup.0,
        fs.pattern.0,
        fs.particles.0,
        fs.binning.0,
        fs.tile_alloc.0,
        fs.path_coarse_counter.0,
        fs.path_coarse.0,
        fs.backdrop.0,
        fs.coarse_counter.0,
        fs.coarse_setup.0,
        fs.coarse_setup_debug.0,
        fs.coarse.0,
        fs.fine_setup.0,
        fs.fine.0,
        fs.compose.0,
        fs.coarse_original.0,
        fs.fine_setup_original.0,
        fs.fine_original.0,
        fs.compose_original.0,
    ];
    assert_eq!(catalog.entries.len(), 31);
    for (i, a) in ids.iter().enumerate() {
        assert_eq!(*a, i);
    }
}

/// Replays a recording and checks the lifetime discipline dynamically:
/// no command touches a resource after it is freed, and nothing is freed
/// twice.
fn check_lifetimes(commands: &[Command]) {
    let mut freed: Vec<u64> = Vec::new();
    for c in commands {
        for id in resources_of(c) {
            assert!(!freed.contains(&id), "resource {id} touched after free");
        }
        match c {
            Command::FreeBuf(b) => {
                assert!(!freed.contains(&b.id), "resource {} freed twice", b.id);
                freed.push(b.id);
            }
            Command::FreeImage(im) => {
                assert!(!freed.contains(&im.id), "resource {} freed twice", im.id);
                freed.push(im.id);
            }
            _ => {}
        }
    }
}

fn resources_of(c: &Command) -> Vec<u64> {
    match c {
        Command::Upload(b, _) => vec![b.id],
        Command::UploadUniform(b, _) => vec![b.id],
        Command::UploadImage(im, _) => vec![im.id],
        Command::WriteImage(im, _, _, _, _, _) => vec![im.id],
        Command::Dispatch(_, _, rs) => rs.iter().map(|r| r.res_id()).collect(),
        Command::DispatchIndirect(_, b, _, rs) => {
            let mut v: Vec<u64> = rs.iter().map(|r| r.res_id()).collect();
            v.push(b.id);
            v
        }
        Command::Download(b) => vec![b.id],
        Command::Clear(b) => vec![b.id],
        Command::FreeBuf(_) => vec![],
        Command::FreeImage(_) => vec![],
    }
}

#[test]
fn coarse_recording_respects_lifetimes() {
    let scene = red_square_scene();
    let mut catalog = ShaderCatalog::new();
    let shaders = full_shaders(&mut catalog);
    let params = RenderParams { base_color: 0, width: 1, height: 1 };
    let mut render = Render::new();
    let recording = render.render_encoding_coarse(scene.data(), &shaders, &params, false);
    assert!(recording.commands.len() > 10);
    check_lifetimes(&recording.commands);
    // No download was requested.
    assert!(!recording.commands.iter().any(|c| matches!(c, Command::Download(_))));
}

#[test]
fn robust_coarse_records_readback() {
    let scene = red_square_scene();
    let mut catalog = ShaderCatalog::new();
    let shaders = full_shaders(&mut catalog);
    let params = RenderParams { base_color: 0, width: 32, height: 32 };
    let mut render = Render::new();
    let recording = render.render_encoding_coarse(scene.data(), &shaders, &params, true);
    assert!(recording.commands.iter().any(|c| matches!(c, Command::Download(_))));
    check_lifetimes(&recording.commands);
}

#[test]
fn full_render_records_fine_phase() {
    let scene = red_square_scene();
    let mut catalog = ShaderCatalog::new();
    let shaders = full_shaders(&mut catalog);
    let params = RenderParams { base_color: 0, width: 1, height: 1 };
    let (recording, _out) = vello_core::render::render_encoding_full(scene.data(), &shaders, &params);
    check_lifetimes(&recording.commands);
    // The scene buffer carries the packed bytes.
    let has_scene_upload = recording.commands.iter().any(|c| match c {
        Command::Upload(_, data) => !data.is_empty(),
        _ => false,
    });
    assert!(has_scene_upload);
    // Both a coarse dispatch chain and the fine dispatch are present.
    let dispatches = recording
        .commands
        .iter()
        .filter(|c| matches!(c, Command::Dispatch(_, _, _)))
        .count();
    assert!(dispatches >= 9);
}

#[test]
fn half_alpha_layer_scenario() {
    // The clipped variant of the square scenario: the layer's packed
    // filter color and its half alpha land in the begin-clip payload.
    let mut scene = red_square_scene();
    let packed_filter = 0x8080_8080u32;
    scene.push_layer(packed_filter, 0.5f32.to_bits(), identity(), &unit_square());
    scene.fill(Fill::NonZero, identity(), &Brush::Solid(red()), None, &unit_square());
    scene.pop_layer();
    let e = scene.data();
    assert_eq!(e.n_clips, 2);
    assert_eq!(e.n_open_clips, 0);
    let begin_at = e
        .draw_tags
        .iter()
        .position(|t| t.0 == vello_core::draw::DRAW_TAG_BEGIN_CLIP)
        .unwrap();
    // Payload offset: one color payload (4 bytes) precedes the clip.
    let mut payload_off = 0usize;
    for t in &e.draw_tags[..begin_at] {
        payload_off += match t.0 {
            x if x == DRAW_TAG_COLOR => 4,
            _ => 0,
        };
    }
    assert_eq!(&e.draw_data[payload_off..payload_off + 4], &packed_filter.to_le_bytes());
    assert_eq!(
        &e.draw_data[payload_off + 4..payload_off + 8],
        &0.5f32.to_bits().to_le_bytes()
    );
    let mut resolver = Resolver::new();
    let mut packed: Vec<u8> = Vec::new();
    let layout = resolver.resolve(e, &mut packed);
    assert_eq!(layout.n_clips, 2);
}

#[test]
fn scene_fill_brush_transform_swaps_tags() {
    let mut scene = Scene::new();
    let bt = vello_core::math::Transform {
        m0: 2f32.to_bits(),
        m1: 0,
        m2: 0,
        m3: 2f32.to_bits(),
        t0: 0,
        t1: 0,
    };
    scene.fill(Fill::NonZero, identity(), &Brush::Solid(red()), Some(bt), &unit_square());
    let e = scene.data();
    // The brush transform's marker swaps before the path terminator.
    let len = e.path_tags.len();
    assert_eq!(e.path_tags[len - 1].0, 0x10);
    assert_eq!(e.path_tags[len - 2].0, 0x20);
}

#[test]
fn pattern_scene_dispatches_indirect() {
    let mut scene = red_square_scene();
    let pattern = vello_core::math::PatternData {
        start_x: 0f32.to_bits(),
        start_y: 0f32.to_bits(),
        box_scale_x: 8f32.to_bits(),
        box_scale_y: 8f32.to_bits(),
        rotate: 0f32.to_bits(),
        is_screen_space: 0,
    };
    scene.push_pattern(pattern);
    scene.fill(Fill::NonZero, identity(), &Brush::Solid(red()), None, &unit_square());
    scene.pop_pattern();
    assert_eq!(scene.data().n_patterns, 2);

    let mut resolver = Resolver::new();
    let mut packed: Vec<u8> = Vec::new();
    let layout = resolver.resolve(scene.data(), &mut packed);
    assert_eq!(layout.n_patterns, 2);
    // The pattern region carries the six recorded words.
    let pb = 4 * layout.pattern_base as usize;
    assert_eq!(&packed[pb..pb + 4], &0f32.to_bits().to_le_bytes());
    assert_eq!(&packed[pb + 8..pb + 12], &8f32.to_bits().to_le_bytes());
    assert_eq!(&packed[pb + 20..pb + 24], &0u32.to_le_bytes());

    let mut catalog = ShaderCatalog::new();
    let shaders = full_shaders(&mut catalog);
    let params = RenderParams { base_color: 0, width: 32, height: 32 };
    let mut render = Render::new();
    let recording = render.render_encoding_coarse(scene.data(), &shaders, &params, false);
    check_lifetimes(&recording.commands);
    // The pattern pass runs with a device-supplied workgroup count.
    assert!(recording
        .commands
        .iter()
        .any(|c| matches!(c, Command::DispatchIndirect(_, _, _, _))));
}

#[test]
fn screen_space_pattern_keeps_transform_on_append() {
    // Inside a screen-space pattern the transform entries record the
    // ignored state, so a transformed append leaves them unchanged while
    // default-state entries take their pre-multiplied counterparts.
    let mut fragment = Encoding::new();
    fragment.reset(true);
    let t_default = identity();
    fragment.encode_transform(t_default);
    let pattern = vello_core::math::PatternData {
        start_x: 0,
        start_y: 0,
        box_scale_x: 1f32.to_bits(),
        box_scale_y: 1f32.to_bits(),
        rotate: 0,
        is_screen_space: 1,
    };
    fragment.encode_begin_pattern(pattern);
    let t_screen = vello_core::math::Transform {
        t0: 5f32.to_bits(),
        ..identity()
    };
    fragment.encode_transform(t_screen);
    fragment.encode_end_pattern();
    assert_eq!(fragment.transforms.len(), 2);

    let camera = vello_core::math::Transform {
        t0: 100f32.to_bits(),
        t1: 100f32.to_bits(),
        ..identity()
    };
    // The caller pre-multiplies every entry; entries in the ignored
    // state must come through verbatim regardless.
    let mapped: Vec<vello_core::math::Transform> = vec![
        vello_core::math::Transform { t0: 100f32.to_bits(), t1: 100f32.to_bits(), ..identity() },
        vello_core::math::Transform { t0: 105f32.to_bits(), t1: 100f32.to_bits(), ..identity() },
    ];
    let mapped_runs: Vec<vello_core::math::Transform> = vec![];
    let mut base = Encoding::new();
    base.reset(false);
    let pre = base.transforms.len();
    base.append_with_transform(&fragment, camera, &mapped, &mapped_runs);
    // The default-state entry took its pre-multiplied value...
    assert_eq!(base.transforms[pre], mapped[0]);
    // ...while the screen-space entry passed through unchanged.
    assert_eq!(base.transforms[pre + 1], t_screen);
    assert_eq!(base.camera_transform, Some(camera));
}

#[test]
fn image_patch_lands_in_atlas() {
    let mut e = Encoding::new();
    e.reset(false);
    e.encode_linewidth(F32_BITS_NEG_ONE, None);
    e.encode_shape(&unit_square(), true);
    let image = vello_core::resources::Image { id: 42, width: 16, height: 16 };
    e.encode_image(&image);
    let mut resolver = Resolver::new();
    let mut packed: Vec<u8> = Vec::new();
    let layout = resolver.resolve(&e, &mut packed);
    assert_eq!(resolver.atlas.placements.len(), 1);
    let p = resolver.atlas.placements[0];
    assert_eq!(p.image.id, 42);
    assert!(p.x + 16 <= resolver.atlas.width);
    assert!(p.y + 16 <= resolver.atlas.height);
    // The patched draw data records the atlas position and the packed
    // extent.
    let dd = 4 * layout.draw_data_base as usize;
    let xy = (p.x << 16) | p.y;
    assert_eq!(&packed[dd..dd + 4], &xy.to_le_bytes());
    assert_eq!(&packed[dd + 4..dd + 8], &((16u32 << 16) | 16).to_le_bytes());

    // The coarse recording writes the image into the atlas image.
    let mut catalog = ShaderCatalog::new();
    let shaders = full_shaders(&mut catalog);
    let params = RenderParams { base_color: 0, width: 32, height: 32 };
    let mut render = Render::new();
    let recording = render.render_encoding_coarse(&e, &shaders, &params, false);
    check_lifetimes(&recording.commands);
    assert!(recording
        .commands
        .iter()
        .any(|c| matches!(c, Command::WriteImage(_, _, _, _, _, 42))));
}

#[test]
fn degenerate_radial_emits_one_transparent_entry() {
    // Equal centers with nearly equal radii: the gradient degrades to a
    // single transparent color entry, never a second draw object.
    let mut e = Encoding::new();
    e.reset(false);
    e.encode_linewidth(F32_BITS_NEG_ONE, None);
    e.encode_shape(&unit_square(), true);
    let g = vello_core::draw::DrawRadialGradient {
        index: 0,
        p0x: 1f32.to_bits(),
        p0y: 1f32.to_bits(),
        p1x: 1f32.to_bits(),
        p1y: 1f32.to_bits(),
        r0: 1f32.to_bits(),
        r1: (1f32 + 1.0 / 8192.0).to_bits(),
    };
    let stops = vec![
        vello_core::resources::ColorStop { offset: 0f32.to_bits(), color: red() },
        vello_core::resources::ColorStop {
            offset: 1f32.to_bits(),
            color: Color { r: 0, g: 255, b: 0, a: 255 },
        },
    ];
    e.encode_radial_gradient(g, &stops, vello_core::resources::Extend::Pad, true);
    assert_eq!(e.draw_tags.len(), 1);
    assert_eq!(e.draw_tags[0].0, DRAW_TAG_COLOR);
    assert_eq!(e.draw_data, 0u32.to_le_bytes().to_vec());
    assert_eq!(e.resources.patches.len(), 0);
    assert_eq!(e.resources.color_stops.len(), 0);
}

#[test]
fn nondegenerate_radial_emits_gradient() {
    let mut e = Encoding::new();
    e.reset(false);
    let g = vello_core::draw::DrawRadialGradient {
        index: 0,
        p0x: 0,
        p0y: 0,
        p1x: 4f32.to_bits(),
        p1y: 0,
        r0: 1f32.to_bits(),
        r1: 8f32.to_bits(),
    };
    let stops = vec![
        vello_core::resources::ColorStop { offset: 0f32.to_bits(), color: red() },
        vello_core::resources::ColorStop {
            offset: 1f32.to_bits(),
            color: Color { r: 0, g: 255, b: 0, a: 255 },
        },
    ];
    e.encode_radial_gradient(g, &stops, vello_core::resources::Extend::Pad, false);
    assert_eq!(e.draw_tags.len(), 1);
    assert_eq!(e.draw_tags[0].0, vello_core::draw::DRAW_TAG_RADIAL_GRADIENT);
    assert_eq!(e.resources.patches.len(), 1);
}

#[test]
fn catalog_entries_record_names_and_bindings() {
    let mut catalog = ShaderCatalog::new();
    let fs = full_shaders(&mut catalog);
    assert_eq!(catalog.entries[fs.pathtag_reduce.0].name, "pathtag_reduce");
    assert_eq!(
        catalog.entries[fs.pathtag_reduce.0].bindings,
        vec![BindType::Uniform, BindType::BufReadOnly, BindType::Buffer]
    );
    assert_eq!(catalog.entries[fs.path_coarse.0].name, "path_coarse_full");
    assert_eq!(catalog.entries[fs.backdrop.0].name, "backdrop_dyn");
    assert_eq!(catalog.entries[fs.fine_original.0].name, "fine_original");
    assert_eq!(catalog.entries[fs.fine_original.0].bindings.len(), 9);
    assert_eq!(catalog.entries[fs.bbox_clear.0].bindings, vec![
        BindType::Uniform,
        BindType::Buffer
    ]);
}

#[test]
fn robust_download_is_second_to_last_and_targets_bump() {
    let scene = red_square_scene();
    let mut catalog = ShaderCatalog::new();
    let shaders = full_shaders(&mut catalog);
    let params = RenderParams { base_color: 0, width: 32, height: 32 };
    let mut render = Render::new();
    let recording = render.render_encoding_coarse(scene.data(), &shaders, &params, true);
    let n = recording.commands.len();
    let bump = render.bump_buf();
    match &recording.commands[n - 2] {
        Command::Download(b) => assert_eq!(*b, bump),
        other => panic!("expected the readback second to last, found {other:?}"),
    }
    // Exactly one download in the whole recording.
    let downloads = recording
        .commands
        .iter()
        .filter(|c| matches!(c, Command::Download(_)))
        .count();
    assert_eq!(downloads, 1);
    // The last command frees the downloaded buffer.
    assert!(matches!(&recording.commands[n - 1], Command::FreeBuf(b) if *b == bump));
}

#[test]
fn fine_phase_appends_dispatch_then_frees() {
    let scene = red_square_scene();
    let mut catalog = ShaderCatalog::new();
    let shaders = full_shaders(&mut catalog);
    let params = RenderParams { base_color: 0, width: 1, height: 1 };
    let mut render = Render::new();
    let mut recording = render.render_encoding_coarse(scene.data(), &shaders, &params, false);
    let coarse_len = recording.commands.len();
    let out = render.out_image();
    render.record_fine(&shaders, &mut recording);
    assert_eq!(recording.commands.len(), coarse_len + 8);
    match &recording.commands[coarse_len] {
        Command::Dispatch(shader, _, resources) => {
            assert_eq!(*shader, shaders.fine_original);
            assert_eq!(resources.len(), 8);
            assert_eq!(resources[3].res_id(), out.id);
        }
        other => panic!("expected the fine dispatch, found {other:?}"),
    }
    for c in &recording.commands[coarse_len + 1..] {
        assert!(matches!(c, Command::FreeBuf(_) | Command::FreeImage(_)));
        // The output image is never freed.
        if let Command::FreeImage(im) = c {
            assert_ne!(im.id, out.id);
        }
    }
    check_lifetimes(&recording.commands);
}

#[test]
fn renderable_check_accepts_scenes_and_rejects_corruption() {
    let scene = red_square_scene();
    assert!(scene.data().is_renderable());
    let mut broken = scene.data().clone();
    // A patch pointing past the draw data is malformed.
    broken.resources.patches.push(vello_core::resources::Patch::GlyphRun { index: 5 });
    assert!(!broken.is_renderable());
}
