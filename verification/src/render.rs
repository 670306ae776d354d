//! The render orchestrator: takes an encoded scene, sizes every
//! intermediate buffer, and records the ordered dispatch graph of the
//! coarse and fine rasterization phases, freeing each buffer right after
//! its last consumer. The contracts pin the entire recorded command
//! sequence, and the recording provably respects resource lifetimes:
//! nothing is touched after it is freed and nothing is freed twice.

use crate::config::{
    layout_bounded, spec_buffer_sizes, spec_camera, spec_gpu_config, spec_workgroup_counts,
    BufferSizes, GpuConfig, RenderConfig, WorkgroupCounts,
};
use crate::encoding::{encoding_wf, Encoding};
use crate::engine::{
    cmd_view, cmds_view, free_view, BufProxy, CmdView, Command, ImageProxy, ImageSource,
    ImageSourceView, Recording, ResourceProxy, WorkgroupSize,
};
use crate::math::Transform;
use crate::resolve::{
    encoding_bounded, spec_draw_tag_words, spec_layout, spec_path_tag_bytes, spec_u32s_le,
    ImagePlacement, Layout, RampRowView, Resolver, RAMP_WIDTH,
};
use crate::resources::Patch;
use crate::shaders::FullShaders;
use vstd::prelude::*;

verus! {

/// Parameters of one render.
#[derive(Clone, Copy, PartialEq, Eq, Structural, Debug)]
pub struct RenderParams {
    /// Packed background color.
    pub base_color: u32,
    /// Viewport width in pixels.
    pub width: u32,
    /// Viewport height in pixels.
    pub height: u32,
}

/// Resources produced by the coarse phase and consumed by fine
/// rasterization, threaded between the two recording calls.
#[derive(Clone, Copy, PartialEq, Eq, Structural, Debug)]
pub struct FineResources {
    /// The configuration uniform.
    pub config_buf: ResourceProxy,
    /// The bump-allocator counters.
    pub bump_buf: ResourceProxy,
    /// The tile arena.
    pub tile_buf: ResourceProxy,
    /// The segment arena.
    pub segments_buf: ResourceProxy,
    /// The per-tile command lists.
    pub ptcl_buf: ResourceProxy,
    /// The gradient ramp atlas.
    pub gradient_image: ResourceProxy,
    /// The per-bin data region.
    pub info_bin_data_buf: ResourceProxy,
    /// The image atlas.
    pub image_atlas: ResourceProxy,
    /// The output image.
    pub out_image: ImageProxy,
}

/// A buffer resource handle.
pub open spec fn rbuf(id: u64, size: u64) -> ResourceProxy {
    ResourceProxy::Buf(BufProxy { id, size })
}

/// The gradient atlas image: a single pixel when no ramp exists, else
/// one `RAMP_WIDTH` row per ramp (clamped to the image size range).
pub open spec fn spec_grad_image(id: u64, n_ramps: nat) -> ImageProxy {
    if n_ramps == 0 {
        ImageProxy { id, width: 1, height: 1 }
    } else {
        ImageProxy {
            id,
            width: RAMP_WIDTH,
            height: if n_ramps < 0x1_0000 {
                n_ramps as u32
            } else {
                0xFFFF
            },
        }
    }
}

/// The image atlas: a single pixel when nothing was placed, else the
/// packer's extent.
pub open spec fn spec_atlas_image(id: u64, n_placements: nat, aw: u32, ah: u32) -> ImageProxy {
    if n_placements == 0 {
        ImageProxy { id, width: 1, height: 1 }
    } else {
        ImageProxy { id, width: aw, height: ah }
    }
}

/// Byte size of the serialized uniform configuration: twenty-two words.
pub open spec fn spec_gpu_config_size() -> u64 {
    88
}

/// The fine-phase handoff the coarse recording produces: every handle
/// with its identity and size fixed by the allocation order and the
/// computed buffer sizes.
pub open spec fn spec_fine_struct(
    l: Layout,
    params: RenderParams,
    n_ramps: nat,
    n_placements: nat,
    aw: u32,
    ah: u32,
) -> FineResources {
    let sizes = spec_buffer_sizes(l, params.width, params.height);
    FineResources {
        config_buf: rbuf(3, spec_gpu_config_size()),
        bump_buf: rbuf(8, sizes.bump_alloc.size_bytes),
        tile_buf: rbuf(5, sizes.tiles.size_bytes),
        segments_buf: rbuf(6, sizes.segments.size_bytes),
        ptcl_buf: rbuf(7, sizes.ptcl.size_bytes),
        gradient_image: ResourceProxy::Image(spec_grad_image(0, n_ramps)),
        info_bin_data_buf: rbuf(4, sizes.bin_data.size_bytes),
        image_atlas: ResourceProxy::Image(spec_atlas_image(1, n_placements, aw, ah)),
        out_image: ImageProxy { id: 9, width: params.width, height: params.height },
    }
}

/// The upload phase of the coarse recording: the gradient atlas (when
/// ramps exist), the placed images, the packed scene and the uniform
/// configuration.
pub open spec fn spec_upload_cmds(
    v: crate::encoding::EncodingView,
    params: RenderParams,
    packed: Seq<u8>,
    rows: Seq<RampRowView>,
    placements: Seq<ImagePlacement>,
    aw: u32,
    ah: u32,
) -> Seq<CmdView> {
    let l = spec_layout(v);
    let grad = spec_grad_image(0, rows.len());
    let atlas = spec_atlas_image(1, placements.len(), aw, ah);
    let grad_cmds = if rows.len() == 0 {
        Seq::<CmdView>::empty()
    } else {
        seq![CmdView::UploadImage(grad, ImageSourceView::Ramps(rows))]
    };
    let writes = Seq::new(
        placements.len(),
        |i: int|
            CmdView::WriteImage(
                atlas,
                placements[i].x,
                placements[i].y,
                placements[i].image.width,
                placements[i].image.height,
                placements[i].image.id,
            ),
    );
    grad_cmds + writes + seq![
        CmdView::Upload(BufProxy { id: 2, size: (4 * l.size_in_words) as u64 }, packed),
        CmdView::UploadUniform(
            BufProxy { id: 3, size: spec_gpu_config_size() },
            spec_gpu_config(l, params.width, params.height, params.base_color).spec_bytes(),
        ),
    ]
}

/// The path-tag prefix sum: reduce, the extra level when the tag stream
/// is large, the scan, and the frees of the reduction outputs.
pub open spec fn spec_pathscan_cmds(
    shaders: FullShaders,
    wg: WorkgroupCounts,
    sizes: BufferSizes,
    config: ResourceProxy,
    scene: ResourceProxy,
    b: u64,
) -> Seq<CmdView> {
    let reduced = rbuf(b, sizes.path_reduced.size_bytes);
    let reduced2 = rbuf((b + 1) as u64, sizes.path_reduced2.size_bytes);
    let reduced_scan = rbuf((b + 2) as u64, sizes.path_reduced_scan.size_bytes);
    let tagmonoid = rbuf((b + 3) as u64, sizes.path_monoids.size_bytes);
    let parent = if wg.use_large_path_scan {
        reduced_scan
    } else {
        reduced
    };
    let scan_shader = if wg.use_large_path_scan {
        shaders.pathtag_scan_large
    } else {
        shaders.pathtag_scan
    };
    let mid = if wg.use_large_path_scan {
        seq![
            CmdView::Dispatch(shaders.pathtag_reduce2, wg.path_reduce2, seq![reduced, reduced2]),
            CmdView::Dispatch(
                shaders.pathtag_scan1,
                wg.path_scan1,
                seq![reduced, reduced2, reduced_scan],
            ),
        ]
    } else {
        Seq::<CmdView>::empty()
    };
    let tail_frees = if wg.use_large_path_scan {
        seq![free_view(reduced2), free_view(reduced_scan)]
    } else {
        Seq::<CmdView>::empty()
    };
    seq![CmdView::Dispatch(shaders.pathtag_reduce, wg.path_reduce, seq![config, scene, reduced])]
        + mid + seq![
        CmdView::Dispatch(scan_shader, wg.path_scan, seq![config, scene, parent, tagmonoid]),
        free_view(reduced),
    ] + tail_frees
}

/// Geometry and draw expansion plus the clip stages.
pub open spec fn spec_draw_clip_cmds(
    shaders: FullShaders,
    wg: WorkgroupCounts,
    sizes: BufferSizes,
    config: ResourceProxy,
    scene: ResourceProxy,
    tagmonoid: ResourceProxy,
    info: ResourceProxy,
    b: u64,
) -> Seq<CmdView> {
    let path_bbox = rbuf(b, sizes.path_bboxes.size_bytes);
    let cubic = rbuf((b + 1) as u64, sizes.cubics.size_bytes);
    let draw_reduced = rbuf((b + 2) as u64, sizes.draw_reduced.size_bytes);
    let draw_monoid = rbuf((b + 3) as u64, sizes.draw_monoids.size_bytes);
    let clip_inp = rbuf((b + 4) as u64, sizes.clip_inps.size_bytes);
    let p2p = rbuf((b + 5) as u64, sizes.path_to_pattern.size_bytes);
    let clip_el = rbuf((b + 6) as u64, sizes.clip_els.size_bytes);
    let clip_bic = rbuf((b + 7) as u64, sizes.clip_bics.size_bytes);
    let clip_bbox = rbuf((b + 8) as u64, sizes.clip_bboxes.size_bytes);
    let reduce_cmds = if wg.clip_reduce.x > 0 {
        seq![
            CmdView::Dispatch(
                shaders.clip_reduce,
                wg.clip_reduce,
                seq![clip_inp, path_bbox, clip_bic, clip_el],
            ),
        ]
    } else {
        Seq::<CmdView>::empty()
    };
    let leaf_cmds = if wg.clip_leaf.x > 0 {
        seq![
            CmdView::Dispatch(
                shaders.clip_leaf,
                wg.clip_leaf,
                seq![config, clip_inp, path_bbox, clip_bic, clip_el, draw_monoid, clip_bbox],
            ),
        ]
    } else {
        Seq::<CmdView>::empty()
    };
    seq![
        CmdView::Dispatch(shaders.bbox_clear, wg.bbox_clear, seq![config, path_bbox]),
        CmdView::Dispatch(
            shaders.pathseg,
            wg.path_seg,
            seq![config, scene, tagmonoid, path_bbox, cubic],
        ),
        CmdView::Dispatch(shaders.draw_reduce, wg.draw_reduce, seq![config, scene, draw_reduced]),
        CmdView::Dispatch(
            shaders.draw_leaf,
            wg.draw_leaf,
            seq![config, scene, draw_reduced, path_bbox, draw_monoid, info, clip_inp, p2p],
        ),
        free_view(draw_reduced),
    ] + reduce_cmds + leaf_cmds + seq![
        free_view(clip_inp),
        free_view(clip_bic),
        free_view(clip_el),
    ]
}

/// The back half of the coarse recording: the conditional pattern pass,
/// binning, tile allocation, path-coarse rasterization, backdrop and
/// coarse compositing, the robust readback, and the frees.
pub open spec fn spec_tail_cmds(
    shaders: FullShaders,
    wg: WorkgroupCounts,
    sizes: BufferSizes,
    camera_t: Transform,
    robust: bool,
    config: ResourceProxy,
    scene: ResourceProxy,
    info: ResourceProxy,
    tile: ResourceProxy,
    segments: ResourceProxy,
    ptcl: ResourceProxy,
    bump_raw: BufProxy,
    tagmonoid: ResourceProxy,
    path_bbox: ResourceProxy,
    cubic: ResourceProxy,
    draw_monoid: ResourceProxy,
    p2p: ResourceProxy,
    clip_bbox: ResourceProxy,
    b: u64,
) -> Seq<CmdView> {
    let bump = ResourceProxy::Buf(bump_raw);
    let indirect = BufProxy { id: b, size: sizes.indirect_count.size_bytes };
    let lines = rbuf((b + 1) as u64, sizes.lines.size_bytes);
    let camera = BufProxy { id: (b + 2) as u64, size: 24 };
    let shift: u64 = if wg.use_patterns {
        1
    } else {
        0
    };
    let draw_bbox = rbuf((b + 2 + shift) as u64, sizes.draw_bboxes.size_bytes);
    let bin_header = rbuf((b + 3 + shift) as u64, sizes.bin_headers.size_bytes);
    let path = rbuf((b + 4 + shift) as u64, sizes.paths.size_bytes);
    let pattern_cmds = if wg.use_patterns {
        seq![
            CmdView::UploadUniform(camera, spec_transform_bytes(camera_t)),
            CmdView::Dispatch(
                shaders.pattern_setup,
                WorkgroupSize { x: 1, y: 1, z: 1 },
                seq![bump, ResourceProxy::Buf(indirect)],
            ),
            CmdView::DispatchIndirect(
                shaders.pattern,
                indirect,
                0,
                seq![
                    config,
                    ResourceProxy::Buf(camera),
                    scene,
                    clip_bbox,
                    p2p,
                    path_bbox,
                    bump,
                    lines,
                ],
            ),
        ]
    } else {
        Seq::<CmdView>::empty()
    };
    let download_cmds = if robust {
        seq![CmdView::Download(bump_raw)]
    } else {
        Seq::<CmdView>::empty()
    };
    pattern_cmds + seq![
        free_view(p2p),
        free_view(lines),
        CmdView::Clear(bump_raw),
        CmdView::Dispatch(
            shaders.binning,
            wg.binning,
            seq![config, draw_monoid, path_bbox, clip_bbox, draw_bbox, bump, info, bin_header],
        ),
        free_view(clip_bbox),
        CmdView::Dispatch(
            shaders.tile_alloc,
            wg.tile_alloc,
            seq![config, scene, draw_bbox, bump, path, tile],
        ),
        free_view(draw_bbox),
        free_view(path_bbox),
        CmdView::Dispatch(
            shaders.path_coarse,
            wg.path_coarse,
            seq![config, scene, tagmonoid, cubic, path, bump, tile, segments],
        ),
        free_view(tagmonoid),
        free_view(cubic),
        CmdView::Dispatch(shaders.backdrop, wg.backdrop, seq![config, path, tile]),
        CmdView::Dispatch(
            shaders.coarse,
            wg.coarse,
            seq![config, scene, draw_monoid, bin_header, info, path, tile, bump, ptcl],
        ),
        free_view(scene),
        free_view(draw_monoid),
        free_view(bin_header),
        free_view(path),
    ] + download_cmds + seq![CmdView::FreeBuf(bump_raw)]
}

/// The camera uniform's bytes: the six transform words.
pub open spec fn spec_transform_bytes(t: Transform) -> Seq<u8> {
    crate::bytes::spec_u32_le(t.m0) + crate::bytes::spec_u32_le(t.m1) + crate::bytes::spec_u32_le(
        t.m2,
    ) + crate::bytes::spec_u32_le(t.m3) + crate::bytes::spec_u32_le(t.t0)
        + crate::bytes::spec_u32_le(t.t1)
}

/// The whole coarse recording, given the resolver's products: uploads,
/// the three dispatch stages and the tail, in order.
pub open spec fn spec_coarse_cmds(
    shaders: FullShaders,
    v: crate::encoding::EncodingView,
    params: RenderParams,
    robust: bool,
    packed: Seq<u8>,
    rows: Seq<RampRowView>,
    placements: Seq<ImagePlacement>,
    aw: u32,
    ah: u32,
) -> Seq<CmdView> {
    let l = spec_layout(v);
    let wg = spec_workgroup_counts(l, params.width, params.height);
    let sizes = spec_buffer_sizes(l, params.width, params.height);
    let config = rbuf(3, spec_gpu_config_size());
    let scene = rbuf(2, (4 * l.size_in_words) as u64);
    let info = rbuf(4, sizes.bin_data.size_bytes);
    let tile = rbuf(5, sizes.tiles.size_bytes);
    let segments = rbuf(6, sizes.segments.size_bytes);
    let ptcl = rbuf(7, sizes.ptcl.size_bytes);
    let bump_raw = BufProxy { id: 8, size: sizes.bump_alloc.size_bytes };
    let tagmonoid = rbuf(13, sizes.path_monoids.size_bytes);
    let path_bbox = rbuf(14, sizes.path_bboxes.size_bytes);
    let cubic = rbuf(15, sizes.cubics.size_bytes);
    let draw_monoid = rbuf(17, sizes.draw_monoids.size_bytes);
    let p2p = rbuf(19, sizes.path_to_pattern.size_bytes);
    let clip_bbox = rbuf(22, sizes.clip_bboxes.size_bytes);
    spec_upload_cmds(v, params, packed, rows, placements, aw, ah) + spec_pathscan_cmds(
        shaders,
        wg,
        sizes,
        config,
        scene,
        10,
    ) + spec_draw_clip_cmds(shaders, wg, sizes, config, scene, tagmonoid, info, 14)
        + spec_tail_cmds(
        shaders,
        wg,
        sizes,
        spec_camera(v.camera_transform),
        robust,
        config,
        scene,
        info,
        tile,
        segments,
        ptcl,
        bump_raw,
        tagmonoid,
        path_bbox,
        cubic,
        draw_monoid,
        p2p,
        clip_bbox,
        23,
    )
}

/// What the resolver products handed to the upload phase satisfy: the
/// packed buffer has the layout's extent with the tag regions in place,
/// every placement lies inside the atlas extent, and every ramp patch
/// has a matching row.
pub open spec fn coarse_data_ok(
    v: crate::encoding::EncodingView,
    packed: Seq<u8>,
    rows: Seq<RampRowView>,
    placements: Seq<ImagePlacement>,
    aw: u32,
    ah: u32,
) -> bool {
    let l = spec_layout(v);
    &&& packed.len() == 4 * l.size_in_words
    &&& packed.subrange(0, 4 * l.path_data_base as int) == spec_path_tag_bytes(v.path_tags)
    &&& packed.subrange(4 * l.draw_tag_base as int, 4 * l.draw_data_base as int) == spec_u32s_le(
        spec_draw_tag_words(v),
    )
    &&& forall|i: int|
        0 <= i < placements.len() ==> ((#[trigger] placements[i]).x + placements[i].image.width
            <= aw && placements[i].y + placements[i].image.height <= ah)
    &&& forall|i: int|
        0 <= i < v.patches.len() ==> match #[trigger] v.patches[i] {
            Patch::Ramp { stops_start, stops_end, extend, .. } => exists|j: int|
                0 <= j < rows.len() && (#[trigger] rows[j]).stops == v.color_stops.subrange(
                    stops_start as int,
                    stops_end as int,
                ) && rows[j].extend == extend,
            _ => true,
        }
}

/// The fine recording: one dispatch of the fine kernel over the handoff
/// resources, then every one of them but the output image freed.
pub open spec fn spec_fine_cmds(
    shaders: FullShaders,
    f: FineResources,
    wg: WorkgroupSize,
) -> Seq<CmdView> {
    seq![
        CmdView::Dispatch(
            shaders.fine_original,
            wg,
            seq![
                f.config_buf,
                f.tile_buf,
                f.segments_buf,
                ResourceProxy::Image(f.out_image),
                f.ptcl_buf,
                f.gradient_image,
                f.info_bin_data_buf,
                f.image_atlas,
            ],
        ),
        free_view(f.config_buf),
        free_view(f.tile_buf),
        free_view(f.segments_buf),
        free_view(f.ptcl_buf),
        free_view(f.gradient_image),
        free_view(f.image_atlas),
        free_view(f.info_bin_data_buf),
    ]
}

/// The fine-phase resources carry pairwise distinct identities, in
/// their order of creation.
pub open spec fn fine_distinct(f: FineResources) -> bool {
    &&& f.gradient_image.spec_id() < f.image_atlas.spec_id()
    &&& f.image_atlas.spec_id() < f.config_buf.spec_id()
    &&& f.config_buf.spec_id() < f.info_bin_data_buf.spec_id()
    &&& f.info_bin_data_buf.spec_id() < f.tile_buf.spec_id()
    &&& f.tile_buf.spec_id() < f.segments_buf.spec_id()
    &&& f.segments_buf.spec_id() < f.ptcl_buf.spec_id()
    &&& f.ptcl_buf.spec_id() < f.bump_buf.spec_id()
    &&& f.bump_buf.spec_id() < f.out_image.id
}

/// Whether every fine-phase resource is live in the given set.
pub open spec fn fine_live(f: FineResources, live: Set<u64>) -> bool {
    &&& live.contains(f.config_buf.spec_id())
    &&& live.contains(f.tile_buf.spec_id())
    &&& live.contains(f.segments_buf.spec_id())
    &&& live.contains(f.ptcl_buf.spec_id())
    &&& live.contains(f.gradient_image.spec_id())
    &&& live.contains(f.info_bin_data_buf.spec_id())
    &&& live.contains(f.image_atlas.spec_id())
    &&& live.contains(f.out_image.id)
}

/// What the coarse phase promises of the handoff: the fine resources
/// are recorded, live, pairwise distinct, the arenas carry exactly the
/// computed sizes, the bump handle is a buffer of the counter size, and
/// the output image matches the viewport.
pub open spec fn coarse_post(
    rend: Render,
    r: Recording,
    l: Layout,
    width: u32,
    height: u32,
) -> bool {
    match rend.fine_resources {
        Some(f) => {
            &&& fine_live(f, r.live@)
            &&& fine_distinct(f)
            &&& (match f.tile_buf {
                ResourceProxy::Buf(tb) => tb.size == spec_buffer_sizes(
                    l,
                    width,
                    height,
                ).tiles.size_bytes,
                _ => false,
            })
            &&& (match f.segments_buf {
                ResourceProxy::Buf(sb) => sb.size == spec_buffer_sizes(
                    l,
                    width,
                    height,
                ).segments.size_bytes,
                _ => false,
            })
            &&& (match f.ptcl_buf {
                ResourceProxy::Buf(pb) => pb.size == spec_buffer_sizes(
                    l,
                    width,
                    height,
                ).ptcl.size_bytes,
                _ => false,
            })
            &&& f.bump_buf == rbuf(8, spec_buffer_sizes(l, width, height).bump_alloc.size_bytes)
            &&& f.out_image.width == width
            &&& f.out_image.height == height
        },
        None => false,
    }
}

/// State for a render in progress: the coarse phase fills the two
/// fields, fine recording consumes them.
pub struct Render {
    /// Workgroup count of the fine stage.
    pub fine_wg_count: Option<WorkgroupSize>,
    /// Resources handed from the coarse to the fine phase.
    pub fine_resources: Option<FineResources>,
}

/// What a scene must satisfy before rendering: well-formed, bounded
/// streams, and counts small enough for the sizing arithmetic.
pub open spec fn renderable(e: Encoding) -> bool {
    &&& encoding_wf(e.view())
    &&& encoding_bounded(e.view())
    &&& e.view().n_paths < 0x100_0000
    &&& e.view().n_clips < 0x100_0000
}

impl Encoding {
    /// Decides `renderable` at run time, so that embedders can test a
    /// scene before handing it to the orchestrator.
    pub fn is_renderable(&self) -> (r: bool)
        ensures
            r == renderable(*self),
    {
        let ghost v = self.view();
        if self.should_ignore_camera_transforms.len() != self.transforms.len() {
            return false;
        }
        if self.n_open_clips > self.n_clips {
            return false;
        }
        if self.path_tags.len() >= 0x100_0000 || self.path_data.len() >= 0x100_0000
            || self.draw_tags.len() >= 0x100_0000 || self.draw_data.len() >= 0x100_0000
            || self.transforms.len() >= 0x100_0000 || self.linewidths.len() >= 0x100_0000
            || self.dasharrays.len() >= 0x100_0000 || self.pattern_data.len() >= 0x100_0000
            || self.resources.patches.len() >= 0x100_0000
            || self.resources.color_stops.len() >= 0x100_0000 {
            return false;
        }
        if self.n_paths >= 0x100_0000 || self.n_clips >= 0x100_0000 {
            return false;
        }
        let mut i: usize = 0;
        while i < self.resources.patches.len()
            invariant
                i <= v.patches.len(),
                v == self.view(),
                forall|j: int|
                    0 <= j < i ==> crate::encoding::patch_wf(
                        #[trigger] v.patches[j],
                        v.draw_data.len(),
                        v.color_stops.len(),
                        v.glyph_runs.len(),
                    ),
            decreases v.patches.len() - i,
        {
            let ok = match self.resources.patches[i] {
                Patch::Ramp { draw_data_offset, stops_start, stops_end, .. } => draw_data_offset
                    <= self.draw_data.len() && stops_start <= stops_end && stops_end
                    <= self.resources.color_stops.len(),
                Patch::GlyphRun { index } => index < self.resources.glyph_runs.len(),
                Patch::Image { draw_data_offset, .. } => draw_data_offset <= self.draw_data.len(),
            };
            if !ok {
                proof {
                    assert(!crate::encoding::patch_wf(
                        v.patches[i as int],
                        v.draw_data.len(),
                        v.color_stops.len(),
                        v.glyph_runs.len(),
                    ));
                }
                return false;
            }
            i = i + 1;
        }
        let mut k: usize = 0;
        while k < self.resources.glyph_runs.len()
            invariant
                k <= v.glyph_runs.len(),
                v == self.view(),
                forall|j: int|
                    0 <= j < k ==> crate::encoding::run_wf(
                        #[trigger] v.glyph_runs[j],
                        v.glyphs.len(),
                        v.normalized_coords.len(),
                    ),
                forall|j: int|
                    0 <= j < k ==> crate::encoding::offsets_within(
                        (#[trigger] v.glyph_runs[j]).stream_offsets,
                        v,
                    ),
            decreases v.glyph_runs.len() - k,
        {
            let run = &self.resources.glyph_runs[k];
            let ranges_ok = run.glyphs_start <= run.glyphs_end && run.glyphs_end
                <= self.resources.glyphs.len() && run.normalized_coords_start
                <= run.normalized_coords_end && run.normalized_coords_end
                <= self.resources.normalized_coords.len();
            let so = run.stream_offsets;
            let offsets_ok = so.path_tags <= self.path_tags.len() && so.path_data
                <= self.path_data.len() && so.draw_tags <= self.draw_tags.len() && so.draw_data
                <= self.draw_data.len() && so.transforms <= self.transforms.len() && so.linewidths
                <= self.linewidths.len() && so.dasharrays <= self.dasharrays.len() && so.patterns
                <= self.pattern_data.len();
            if !ranges_ok || !offsets_ok {
                proof {
                    if !ranges_ok {
                        assert(!crate::encoding::run_wf(
                            v.glyph_runs[k as int],
                            v.glyphs.len(),
                            v.normalized_coords.len(),
                        ));
                    } else {
                        assert(!crate::encoding::offsets_within(
                            v.glyph_runs[k as int].stream_offsets,
                            v,
                        ));
                    }
                }
                return false;
            }
            k = k + 1;
        }
        true
    }
}

/// The previously live resources survive a recording step.
pub open spec fn live_grows(pre: Recording, post: Recording) -> bool {
    forall|id: u64| pre.live@.contains(id) ==> post.live@.contains(id)
}

/// No download command sits in the given index range.
pub open spec fn no_download_in(cmds: Seq<Command>, from: int, to: int) -> bool {
    forall|i: int| from <= i < to ==> !((#[trigger] cmds[i]) is Download)
}

/// The scene and configuration uploads: resolution, the two atlases, the
/// packed scene, the config uniform, and the long-lived arenas.
#[verifier::rlimit(100)]
fn stage_upload(recording: &mut Recording, encoding: &Encoding, params: &RenderParams) -> (r: (
    RenderConfig,
    FineResources,
    ResourceProxy,
))
    requires
        old(recording).inv(),
        old(recording).next_id == 0,
        old(recording).commands@.len() == 0,
        renderable(*encoding),
        params.width <= 0xFFFF,
        params.height <= 0xFFFF,
    ensures
        final(recording).inv(),
        live_grows(*old(recording), *final(recording)),
        final(recording).next_id == 10,
        r.0.workgroup_counts == spec_workgroup_counts(
            spec_layout(encoding.view()),
            params.width,
            params.height,
        ),
        r.0.buffer_sizes == spec_buffer_sizes(
            spec_layout(encoding.view()),
            params.width,
            params.height,
        ),
        r.0.camera_transform == spec_camera(encoding.view().camera_transform),
        fine_live(r.1, final(recording).live@),
        final(recording).live@.contains(r.1.bump_buf.spec_id()),
        final(recording).live@.contains(r.2.spec_id()),
        r.2 == rbuf(2, (4 * spec_layout(encoding.view()).size_in_words) as u64),
        exists|packed: Seq<u8>, rows: Seq<RampRowView>, placements: Seq<ImagePlacement>, aw: u32, ah: u32|
            {
                &&& cmds_view(final(recording).commands@) == spec_upload_cmds(
                    encoding.view(),
                    *params,
                    packed,
                    rows,
                    placements,
                    aw,
                    ah,
                )
                &&& coarse_data_ok(encoding.view(), packed, rows, placements, aw, ah)
                &&& r.1 == spec_fine_struct(
                    spec_layout(encoding.view()),
                    *params,
                    rows.len(),
                    placements.len(),
                    aw,
                    ah,
                )
            },
        no_download_in(final(recording).commands@, 0, final(recording).commands@.len() as int),
{
    let ghost v = encoding.view();
    let mut resolver = Resolver::new();
    let mut packed: Vec<u8> = Vec::new();
    let layout = resolver.resolve(encoding, &mut packed);
    proof {
        assert(layout_bounded(layout));
    }
    let ghost packed_bytes = packed@;
    let ghost rows_view = crate::resolve::ramp_rows_view(resolver.ramp_rows@);
    let ghost placements_view = resolver.atlas.placements@;
    let ghost aw = resolver.atlas.width;
    let ghost ah = resolver.atlas.height;

    // The gradient atlas: one pixel row per deduplicated ramp.
    let n_ramps = resolver.ramp_rows.len();
    let gradient_image = if n_ramps == 0 {
        ResourceProxy::Image(recording.new_image(1, 1))
    } else {
        let rows_height = if n_ramps < 0x1_0000 {
            n_ramps as u32
        } else {
            0xFFFFu32
        };
        ResourceProxy::Image(
            recording.upload_image(RAMP_WIDTH, rows_height, ImageSource::Ramps(resolver.ramp_rows)),
        )
    };
    proof {
        assert(gradient_image == ResourceProxy::Image(spec_grad_image(0, rows_view.len())));
    }

    // The image atlas, with every placed image written into it.
    let image_atlas = if resolver.atlas.placements.len() == 0 {
        recording.new_image(1, 1)
    } else {
        recording.new_image(resolver.atlas.width, resolver.atlas.height)
    };
    proof {
        assert(image_atlas == spec_atlas_image(1, placements_view.len(), aw, ah));
        if rows_view.len() == 0 {
            assert(cmds_view(recording.commands@) =~= Seq::<CmdView>::empty());
        } else {
            assert(cmds_view(recording.commands@) =~= seq![
                CmdView::UploadImage(
                    spec_grad_image(0, rows_view.len()),
                    ImageSourceView::Ramps(rows_view),
                ),
            ]);
        }
    }
    let ghost cmds_before_writes = recording.commands@;
    let ghost live_snapshot = recording.live@;
    let mut pl: usize = 0;
    proof {
        assert(cmds_view(recording.commands@) =~= cmds_view(cmds_before_writes) + Seq::new(
            0,
            |i: int|
                CmdView::WriteImage(
                    image_atlas,
                    placements_view[i].x,
                    placements_view[i].y,
                    placements_view[i].image.width,
                    placements_view[i].image.height,
                    placements_view[i].image.id,
                ),
        ));
    }
    while pl < resolver.atlas.placements.len()
        invariant
            pl <= placements_view.len(),
            resolver.atlas.placements@ == placements_view,
            recording.inv(),
            recording.live@ == live_snapshot,
            recording.next_id == 2,
            recording.live@.contains(image_atlas.id),
            cmds_view(recording.commands@) == cmds_view(cmds_before_writes) + Seq::new(
                pl as nat,
                |i: int|
                    CmdView::WriteImage(
                        image_atlas,
                        placements_view[i].x,
                        placements_view[i].y,
                        placements_view[i].image.width,
                        placements_view[i].image.height,
                        placements_view[i].image.id,
                    ),
            ),
        decreases placements_view.len() - pl,
    {
        let p = resolver.atlas.placements[pl];
        let ghost before_write = recording.commands@;
        recording.write_image(image_atlas, p.x, p.y, p.image.width, p.image.height, p.image.id);
        pl = pl + 1;
        proof {
            crate::engine::lemma_cmds_view_push(
                before_write,
                Command::WriteImage(
                    image_atlas,
                    p.x,
                    p.y,
                    p.image.width,
                    p.image.height,
                    p.image.id,
                ),
            );
            assert(cmds_view(recording.commands@) =~= cmds_view(cmds_before_writes) + Seq::new(
                pl as nat,
                |i: int|
                    CmdView::WriteImage(
                        image_atlas,
                        placements_view[i].x,
                        placements_view[i].y,
                        placements_view[i].image.width,
                        placements_view[i].image.height,
                        placements_view[i].image.id,
                    ),
            ));
        }
    }

    let ghost cmds_after_writes = recording.commands@;
    let cpu_config = RenderConfig::new(
        &layout,
        params.width,
        params.height,
        params.base_color,
        encoding.camera_transform,
    );
    let buffer_sizes = cpu_config.buffer_sizes;
    let config_bytes = cpu_config.gpu.to_bytes();
    proof {
        assert(config_bytes@.len() == 88);
    }
    let scene_buf = ResourceProxy::Buf(recording.upload(packed));
    let config_buf = ResourceProxy::Buf(recording.upload_uniform(config_bytes));
    let info_bin_data_buf = ResourceProxy::Buf(
        recording.new_buf(buffer_sizes.bin_data.size_in_bytes()),
    );
    let tile_buf = ResourceProxy::Buf(recording.new_buf(buffer_sizes.tiles.size_in_bytes()));
    let segments_buf = ResourceProxy::Buf(recording.new_buf(buffer_sizes.segments.size_in_bytes()));
    let ptcl_buf = ResourceProxy::Buf(recording.new_buf(buffer_sizes.ptcl.size_in_bytes()));
    let bump_buf = ResourceProxy::Buf(recording.new_buf(buffer_sizes.bump_alloc.size_in_bytes()));
    let out_image = recording.new_image(params.width, params.height);
    let fine = FineResources {
        config_buf,
        bump_buf,
        tile_buf,
        segments_buf,
        ptcl_buf,
        gradient_image,
        info_bin_data_buf,
        image_atlas: ResourceProxy::Image(image_atlas),
        out_image,
    };
    proof {
        assert(fine == spec_fine_struct(
            spec_layout(v),
            *params,
            rows_view.len(),
            placements_view.len(),
            aw,
            ah,
        ));
        assert(cmds_view(recording.commands@) =~= spec_upload_cmds(
            v,
            *params,
            packed_bytes,
            rows_view,
            placements_view,
            aw,
            ah,
        ));
        assert(coarse_data_ok(v, packed_bytes, rows_view, placements_view, aw, ah)) by {
            assert forall|i: int| 0 <= i < placements_view.len() implies ((
            #[trigger] placements_view[i]).x + placements_view[i].image.width <= aw
                && placements_view[i].y + placements_view[i].image.height <= ah) by {
                assert(resolver.atlas.inv());
            }
            assert forall|i: int| 0 <= i < v.patches.len() implies match #[trigger] v.patches[i] {
                Patch::Ramp { stops_start, stops_end, extend, .. } => exists|j: int|
                    0 <= j < rows_view.len() && (#[trigger] rows_view[j]).stops
                        == v.color_stops.subrange(stops_start as int, stops_end as int)
                        && rows_view[j].extend == extend,
                _ => true,
            } by {
                match v.patches[i] {
                    Patch::Ramp { stops_start, stops_end, extend, .. } => {
                        let j = choose|j: int|
                            0 <= j < resolver.ramp_rows@.len() && (
                            #[trigger] resolver.ramp_rows@[j]).stops@ == v.color_stops.subrange(
                                stops_start as int,
                                stops_end as int,
                            ) && resolver.ramp_rows@[j].extend == extend;
                        assert(rows_view[j].stops == resolver.ramp_rows@[j].stops@);
                    },
                    _ => {},
                }
            }
        }
        assert(no_download_in(
            recording.commands@,
            0,
            recording.commands@.len() as int,
        )) by {
            let target = spec_upload_cmds(v, *params, packed_bytes, rows_view, placements_view, aw, ah);
            assert forall|i: int| 0 <= i < recording.commands@.len() implies !((
            #[trigger] recording.commands@[i]) is Download) by {
                assert(cmds_view(recording.commands@)[i] == target[i]);
                assert(cmd_view_is_download(cmds_view(recording.commands@)[i]) == (
                recording.commands@[i] is Download));
            }
        }
    }
    (cpu_config, fine, scene_buf)
}

/// Whether a command view is a download request.
pub open spec fn cmd_view_is_download(c: CmdView) -> bool {
    c is Download
}

/// The path-tag prefix sum stage.
#[verifier::rlimit(100)]
fn stage_pathscan(
    recording: &mut Recording,
    shaders: &FullShaders,
    wg_counts: &WorkgroupCounts,
    buffer_sizes: &BufferSizes,
    config_buf: ResourceProxy,
    scene_buf: ResourceProxy,
) -> (r: ResourceProxy)
    requires
        old(recording).inv(),
        old(recording).next_id < 0x1000,
        old(recording).live@.contains(config_buf.spec_id()),
        old(recording).live@.contains(scene_buf.spec_id()),
    ensures
        final(recording).inv(),
        live_grows(*old(recording), *final(recording)),
        final(recording).next_id == old(recording).next_id + 4,
        final(recording).live@.contains(r.spec_id()),
        final(recording).commands@.subrange(0, old(recording).commands@.len() as int) == old(
            recording,
        ).commands@,
        r == rbuf((old(recording).next_id + 3) as u64, buffer_sizes.path_monoids.size_bytes),
        cmds_view(final(recording).commands@) == cmds_view(old(recording).commands@)
            + spec_pathscan_cmds(
            *shaders,
            *wg_counts,
            *buffer_sizes,
            config_buf,
            scene_buf,
            old(recording).next_id,
        ),
        no_download_in(
            final(recording).commands@,
            old(recording).commands@.len() as int,
            final(recording).commands@.len() as int,
        ),
{
    let ghost b = old(recording).next_id;
    let reduced_buf = ResourceProxy::Buf(
        recording.new_buf(buffer_sizes.path_reduced.size_in_bytes()),
    );
    let reduced2_buf = ResourceProxy::Buf(
        recording.new_buf(buffer_sizes.path_reduced2.size_in_bytes()),
    );
    let reduced_scan_buf = ResourceProxy::Buf(
        recording.new_buf(buffer_sizes.path_reduced_scan.size_in_bytes()),
    );
    let tagmonoid_buf = ResourceProxy::Buf(
        recording.new_buf(buffer_sizes.path_monoids.size_in_bytes()),
    );
    recording.dispatch(
        shaders.pathtag_reduce,
        wg_counts.path_reduce,
        vec![config_buf, scene_buf, reduced_buf],
    );
    let mut pathtag_parent = reduced_buf;
    if wg_counts.use_large_path_scan {
        recording.dispatch(
            shaders.pathtag_reduce2,
            wg_counts.path_reduce2,
            vec![reduced_buf, reduced2_buf],
        );
        recording.dispatch(
            shaders.pathtag_scan1,
            wg_counts.path_scan1,
            vec![reduced_buf, reduced2_buf, reduced_scan_buf],
        );
        pathtag_parent = reduced_scan_buf;
    }
    let pathtag_scan = if wg_counts.use_large_path_scan {
        shaders.pathtag_scan_large
    } else {
        shaders.pathtag_scan
    };
    recording.dispatch(
        pathtag_scan,
        wg_counts.path_scan,
        vec![config_buf, scene_buf, pathtag_parent, tagmonoid_buf],
    );
    recording.free_resource(reduced_buf);
    if wg_counts.use_large_path_scan {
        recording.free_resource(reduced2_buf);
        recording.free_resource(reduced_scan_buf);
    }
    proof {
        let target = spec_pathscan_cmds(
            *shaders,
            *wg_counts,
            *buffer_sizes,
            config_buf,
            scene_buf,
            b,
        );
        assert(cmds_view(recording.commands@) =~= cmds_view(old(recording).commands@) + target);
        assert(recording.commands@.subrange(0, old(recording).commands@.len() as int) =~= old(
            recording,
        ).commands@);
        assert forall|i: int|
            old(recording).commands@.len() <= i < recording.commands@.len() implies !((
        #[trigger] recording.commands@[i]) is Download) by {
            assert(cmds_view(recording.commands@)[i] == target[i - old(recording).commands@.len()]);
            assert(cmd_view_is_download(cmds_view(recording.commands@)[i]) == (
            recording.commands@[i] is Download));
        }
    }
    tagmonoid_buf
}

/// Geometry and draw expansion plus the clip stages.
#[verifier::rlimit(100)]
fn stage_draw_clip(
    recording: &mut Recording,
    shaders: &FullShaders,
    wg_counts: &WorkgroupCounts,
    buffer_sizes: &BufferSizes,
    config_buf: ResourceProxy,
    scene_buf: ResourceProxy,
    tagmonoid_buf: ResourceProxy,
    info_bin_data_buf: ResourceProxy,
) -> (r: (ResourceProxy, ResourceProxy, ResourceProxy, ResourceProxy, ResourceProxy))
    requires
        old(recording).inv(),
        old(recording).next_id < 0x1000,
        old(recording).live@.contains(config_buf.spec_id()),
        old(recording).live@.contains(scene_buf.spec_id()),
        old(recording).live@.contains(tagmonoid_buf.spec_id()),
        old(recording).live@.contains(info_bin_data_buf.spec_id()),
    ensures
        final(recording).inv(),
        live_grows(*old(recording), *final(recording)),
        final(recording).next_id == old(recording).next_id + 9,
        final(recording).commands@.subrange(0, old(recording).commands@.len() as int) == old(
            recording,
        ).commands@,
        final(recording).live@.contains(r.0.spec_id()),
        final(recording).live@.contains(r.1.spec_id()),
        final(recording).live@.contains(r.2.spec_id()),
        final(recording).live@.contains(r.3.spec_id()),
        final(recording).live@.contains(r.4.spec_id()),
        r.0 == rbuf(old(recording).next_id, buffer_sizes.path_bboxes.size_bytes),
        r.1 == rbuf((old(recording).next_id + 1) as u64, buffer_sizes.cubics.size_bytes),
        r.2 == rbuf((old(recording).next_id + 3) as u64, buffer_sizes.draw_monoids.size_bytes),
        r.3 == rbuf((old(recording).next_id + 5) as u64, buffer_sizes.path_to_pattern.size_bytes),
        r.4 == rbuf((old(recording).next_id + 8) as u64, buffer_sizes.clip_bboxes.size_bytes),
        cmds_view(final(recording).commands@) == cmds_view(old(recording).commands@)
            + spec_draw_clip_cmds(
            *shaders,
            *wg_counts,
            *buffer_sizes,
            config_buf,
            scene_buf,
            tagmonoid_buf,
            info_bin_data_buf,
            old(recording).next_id,
        ),
        no_download_in(
            final(recording).commands@,
            old(recording).commands@.len() as int,
            final(recording).commands@.len() as int,
        ),
{
    let ghost b = old(recording).next_id;
    let path_bbox_buf = ResourceProxy::Buf(
        recording.new_buf(buffer_sizes.path_bboxes.size_in_bytes()),
    );
    let cubic_buf = ResourceProxy::Buf(recording.new_buf(buffer_sizes.cubics.size_in_bytes()));
    let draw_reduced_buf = ResourceProxy::Buf(
        recording.new_buf(buffer_sizes.draw_reduced.size_in_bytes()),
    );
    let draw_monoid_buf = ResourceProxy::Buf(
        recording.new_buf(buffer_sizes.draw_monoids.size_in_bytes()),
    );
    let clip_inp_buf = ResourceProxy::Buf(
        recording.new_buf(buffer_sizes.clip_inps.size_in_bytes()),
    );
    let path_to_pattern_buf = ResourceProxy::Buf(
        recording.new_buf(buffer_sizes.path_to_pattern.size_in_bytes()),
    );
    let clip_el_buf = ResourceProxy::Buf(recording.new_buf(buffer_sizes.clip_els.size_in_bytes()));
    let clip_bic_buf = ResourceProxy::Buf(
        recording.new_buf(buffer_sizes.clip_bics.size_in_bytes()),
    );
    let clip_bbox_buf = ResourceProxy::Buf(
        recording.new_buf(buffer_sizes.clip_bboxes.size_in_bytes()),
    );
    recording.dispatch(
        shaders.bbox_clear,
        wg_counts.bbox_clear,
        vec![config_buf, path_bbox_buf],
    );
    recording.dispatch(
        shaders.pathseg,
        wg_counts.path_seg,
        vec![config_buf, scene_buf, tagmonoid_buf, path_bbox_buf, cubic_buf],
    );
    recording.dispatch(
        shaders.draw_reduce,
        wg_counts.draw_reduce,
        vec![config_buf, scene_buf, draw_reduced_buf],
    );
    recording.dispatch(
        shaders.draw_leaf,
        wg_counts.draw_leaf,
        vec![
            config_buf,
            scene_buf,
            draw_reduced_buf,
            path_bbox_buf,
            draw_monoid_buf,
            info_bin_data_buf,
            clip_inp_buf,
            path_to_pattern_buf,
        ],
    );
    recording.free_resource(draw_reduced_buf);
    if wg_counts.clip_reduce.x > 0 {
        recording.dispatch(
            shaders.clip_reduce,
            wg_counts.clip_reduce,
            vec![clip_inp_buf, path_bbox_buf, clip_bic_buf, clip_el_buf],
        );
    }
    if wg_counts.clip_leaf.x > 0 {
        recording.dispatch(
            shaders.clip_leaf,
            wg_counts.clip_leaf,
            vec![
                config_buf,
                clip_inp_buf,
                path_bbox_buf,
                clip_bic_buf,
                clip_el_buf,
                draw_monoid_buf,
                clip_bbox_buf,
            ],
        );
    }
    recording.free_resource(clip_inp_buf);
    recording.free_resource(clip_bic_buf);
    recording.free_resource(clip_el_buf);
    proof {
        let target = spec_draw_clip_cmds(
            *shaders,
            *wg_counts,
            *buffer_sizes,
            config_buf,
            scene_buf,
            tagmonoid_buf,
            info_bin_data_buf,
            b,
        );
        assert(cmds_view(recording.commands@) =~= cmds_view(old(recording).commands@) + target);
        assert(recording.commands@.subrange(0, old(recording).commands@.len() as int) =~= old(
            recording,
        ).commands@);
        assert forall|i: int|
            old(recording).commands@.len() <= i < recording.commands@.len() implies !((
        #[trigger] recording.commands@[i]) is Download) by {
            assert(cmds_view(recording.commands@)[i] == target[i - old(recording).commands@.len()]);
            assert(cmd_view_is_download(cmds_view(recording.commands@)[i]) == (
            recording.commands@[i] is Download));
        }
    }
    (path_bbox_buf, cubic_buf, draw_monoid_buf, path_to_pattern_buf, clip_bbox_buf)
}

/// The back half of the coarse recording: the conditional pattern
/// pass, binning, tile allocation, path-coarse rasterization, backdrop,
/// coarse compositing, the robust readback and the frees.
#[verifier::rlimit(100)]
fn stage_tail(
    recording: &mut Recording,
    shaders: &FullShaders,
    wg_counts: &WorkgroupCounts,
    buffer_sizes: &BufferSizes,
    camera_t: &Transform,
    robust: bool,
    config_buf: ResourceProxy,
    scene_buf: ResourceProxy,
    info_bin_data_buf: ResourceProxy,
    tile_buf: ResourceProxy,
    segments_buf: ResourceProxy,
    ptcl_buf: ResourceProxy,
    bump_buf_raw: BufProxy,
    tagmonoid_buf: ResourceProxy,
    path_bbox_buf: ResourceProxy,
    cubic_buf: ResourceProxy,
    draw_monoid_buf: ResourceProxy,
    path_to_pattern_buf: ResourceProxy,
    clip_bbox_buf: ResourceProxy,
)
    requires
        old(recording).inv(),
        old(recording).next_id < 0x1000,
        old(recording).live@.contains(config_buf.spec_id()),
        old(recording).live@.contains(scene_buf.spec_id()),
        old(recording).live@.contains(info_bin_data_buf.spec_id()),
        old(recording).live@.contains(tile_buf.spec_id()),
        old(recording).live@.contains(segments_buf.spec_id()),
        old(recording).live@.contains(ptcl_buf.spec_id()),
        old(recording).live@.contains(bump_buf_raw.id),
        old(recording).live@.contains(tagmonoid_buf.spec_id()),
        old(recording).live@.contains(path_bbox_buf.spec_id()),
        old(recording).live@.contains(cubic_buf.spec_id()),
        old(recording).live@.contains(draw_monoid_buf.spec_id()),
        old(recording).live@.contains(path_to_pattern_buf.spec_id()),
        old(recording).live@.contains(clip_bbox_buf.spec_id()),
        // The handles carry pairwise distinct identities, in creation
        // order, so that freeing one leaves the others live.
        scene_buf.spec_id() < config_buf.spec_id(),
        config_buf.spec_id() < info_bin_data_buf.spec_id(),
        info_bin_data_buf.spec_id() < tile_buf.spec_id(),
        tile_buf.spec_id() < segments_buf.spec_id(),
        segments_buf.spec_id() < ptcl_buf.spec_id(),
        ptcl_buf.spec_id() < bump_buf_raw.id,
        bump_buf_raw.id < tagmonoid_buf.spec_id(),
        tagmonoid_buf.spec_id() < path_bbox_buf.spec_id(),
        path_bbox_buf.spec_id() < cubic_buf.spec_id(),
        cubic_buf.spec_id() < draw_monoid_buf.spec_id(),
        draw_monoid_buf.spec_id() < path_to_pattern_buf.spec_id(),
        path_to_pattern_buf.spec_id() < clip_bbox_buf.spec_id(),
    ensures
        final(recording).inv(),
        final(recording).commands@.subrange(0, old(recording).commands@.len() as int) == old(
            recording,
        ).commands@,
        cmds_view(final(recording).commands@) == cmds_view(old(recording).commands@)
            + spec_tail_cmds(
            *shaders,
            *wg_counts,
            *buffer_sizes,
            *camera_t,
            robust,
            config_buf,
            scene_buf,
            info_bin_data_buf,
            tile_buf,
            segments_buf,
            ptcl_buf,
            bump_buf_raw,
            tagmonoid_buf,
            path_bbox_buf,
            cubic_buf,
            draw_monoid_buf,
            path_to_pattern_buf,
            clip_bbox_buf,
            old(recording).next_id,
        ),
        robust ==> ({
            let n = final(recording).commands@.len();
            &&& n >= 2
            &&& final(recording).commands@[n - 2] == Command::Download(bump_buf_raw)
            &&& no_download_in(
                final(recording).commands@,
                old(recording).commands@.len() as int,
                n - 2,
            )
            &&& !(final(recording).commands@[n - 1] is Download)
        }),
        !robust ==> no_download_in(
            final(recording).commands@,
            old(recording).commands@.len() as int,
            final(recording).commands@.len() as int,
        ),
        forall|id: u64|
            old(recording).live@.contains(id) && id != scene_buf.spec_id() && id
                != tagmonoid_buf.spec_id() && id != path_bbox_buf.spec_id() && id
                != cubic_buf.spec_id() && id != draw_monoid_buf.spec_id() && id
                != path_to_pattern_buf.spec_id() && id != clip_bbox_buf.spec_id() && id
                != bump_buf_raw.id ==> final(recording).live@.contains(id),
{
    let ghost b = old(recording).next_id;
    let bump_buf = ResourceProxy::Buf(bump_buf_raw);
    let indirect_count_buf = recording.new_buf(buffer_sizes.indirect_count.size_in_bytes());
    let lines_buf = ResourceProxy::Buf(recording.new_buf(buffer_sizes.lines.size_in_bytes()));
    if wg_counts.use_patterns {
        let camera_bytes = transform_bytes(camera_t);
        let camera_buf = ResourceProxy::Buf(recording.upload_uniform(camera_bytes));
        recording.dispatch(
            shaders.pattern_setup,
            WorkgroupSize { x: 1, y: 1, z: 1 },
            vec![bump_buf, ResourceProxy::Buf(indirect_count_buf)],
        );
        recording.dispatch_indirect(
            shaders.pattern,
            indirect_count_buf,
            0,
            vec![
                config_buf,
                camera_buf,
                scene_buf,
                clip_bbox_buf,
                path_to_pattern_buf,
                path_bbox_buf,
                bump_buf,
                lines_buf,
            ],
        );
    }
    recording.free_resource(path_to_pattern_buf);
    recording.free_resource(lines_buf);

    let draw_bbox_buf = ResourceProxy::Buf(
        recording.new_buf(buffer_sizes.draw_bboxes.size_in_bytes()),
    );
    let bin_header_buf = ResourceProxy::Buf(
        recording.new_buf(buffer_sizes.bin_headers.size_in_bytes()),
    );
    recording.clear_all(bump_buf_raw);
    recording.dispatch(
        shaders.binning,
        wg_counts.binning,
        vec![
            config_buf,
            draw_monoid_buf,
            path_bbox_buf,
            clip_bbox_buf,
            draw_bbox_buf,
            bump_buf,
            info_bin_data_buf,
            bin_header_buf,
        ],
    );
    recording.free_resource(clip_bbox_buf);
    let path_buf = ResourceProxy::Buf(recording.new_buf(buffer_sizes.paths.size_in_bytes()));
    recording.dispatch(
        shaders.tile_alloc,
        wg_counts.tile_alloc,
        vec![config_buf, scene_buf, draw_bbox_buf, bump_buf, path_buf, tile_buf],
    );
    recording.free_resource(draw_bbox_buf);
    recording.free_resource(path_bbox_buf);
    recording.dispatch(
        shaders.path_coarse,
        wg_counts.path_coarse,
        vec![
            config_buf,
            scene_buf,
            tagmonoid_buf,
            cubic_buf,
            path_buf,
            bump_buf,
            tile_buf,
            segments_buf,
        ],
    );
    recording.free_resource(tagmonoid_buf);
    recording.free_resource(cubic_buf);
    recording.dispatch(shaders.backdrop, wg_counts.backdrop, vec![config_buf, path_buf, tile_buf]);
    recording.dispatch(
        shaders.coarse,
        wg_counts.coarse,
        vec![
            config_buf,
            scene_buf,
            draw_monoid_buf,
            bin_header_buf,
            info_bin_data_buf,
            path_buf,
            tile_buf,
            bump_buf,
            ptcl_buf,
        ],
    );
    recording.free_resource(scene_buf);
    recording.free_resource(draw_monoid_buf);
    recording.free_resource(bin_header_buf);
    recording.free_resource(path_buf);
    let ghost di = recording.commands@.len() as int;
    if robust {
        recording.download(bump_buf_raw);
    }
    recording.free_resource(bump_buf);
    proof {
        let target = spec_tail_cmds(
            *shaders,
            *wg_counts,
            *buffer_sizes,
            *camera_t,
            robust,
            config_buf,
            scene_buf,
            info_bin_data_buf,
            tile_buf,
            segments_buf,
            ptcl_buf,
            bump_buf_raw,
            tagmonoid_buf,
            path_bbox_buf,
            cubic_buf,
            draw_monoid_buf,
            path_to_pattern_buf,
            clip_bbox_buf,
            b,
        );
        assert(cmds_view(recording.commands@) =~= cmds_view(old(recording).commands@) + target);
        assert(recording.commands@.subrange(0, old(recording).commands@.len() as int) =~= old(
            recording,
        ).commands@);
        assert forall|i: int|
            old(recording).commands@.len() <= i < recording.commands@.len() && i != di implies !((
        #[trigger] recording.commands@[i]) is Download) by {
            assert(cmds_view(recording.commands@)[i] == target[i - old(recording).commands@.len()]);
            assert(cmd_view_is_download(cmds_view(recording.commands@)[i]) == (
            recording.commands@[i] is Download));
        }
        if robust {
            assert(recording.commands@[di] == Command::Download(bump_buf_raw));
            assert(di == recording.commands@.len() - 2);
        }
    }
}

impl Render {
    /// A render with no phase recorded yet.
    pub fn new() -> (r: Render)
        ensures
            r.fine_wg_count is None,
            r.fine_resources is None,
    {
        Render { fine_wg_count: None, fine_resources: None }
    }

    /// Records the coarse rasterization phase: resolves the encoding,
    /// uploads the packed scene and configuration, and issues the
    /// dispatch graph through binning, tile allocation, path-coarse
    /// rasterization and coarse compositing, freeing each intermediate
    /// buffer after its last consumer. The contract pins the whole
    /// command sequence. With `robust` set — and only then — a readback
    /// of the bump-allocator counters is recorded, after the final
    /// coarse dispatch, so the caller can detect overflow and re-run
    /// with corrected sizes before fine rasterization.
    #[verifier::rlimit(100)]
    pub fn render_encoding_coarse(
        &mut self,
        encoding: &Encoding,
        shaders: &FullShaders,
        params: &RenderParams,
        robust: bool,
    ) -> (r: Recording)
        requires
            renderable(*encoding),
            params.width <= 0xFFFF,
            params.height <= 0xFFFF,
        ensures
            r.inv(),
            exists|packed: Seq<u8>, rows: Seq<RampRowView>, placements: Seq<ImagePlacement>, aw: u32, ah: u32|
                {
                    &&& cmds_view(r.commands@) == spec_coarse_cmds(
                        *shaders,
                        encoding.view(),
                        *params,
                        robust,
                        packed,
                        rows,
                        placements,
                        aw,
                        ah,
                    )
                    &&& coarse_data_ok(encoding.view(), packed, rows, placements, aw, ah)
                    &&& final(self).fine_resources == Some(
                        spec_fine_struct(
                            spec_layout(encoding.view()),
                            *params,
                            rows.len(),
                            placements.len(),
                            aw,
                            ah,
                        ),
                    )
                },
            robust ==> r.commands@.len() >= 2 && r.commands@[r.commands@.len() - 2]
                == Command::Download(
                BufProxy {
                    id: 8,
                    size: spec_buffer_sizes(
                        spec_layout(encoding.view()),
                        params.width,
                        params.height,
                    ).bump_alloc.size_bytes,
                },
            ) && no_download_in(r.commands@, 0, r.commands@.len() - 2) && !(r.commands@[r.commands@.len()
                - 1] is Download),
            !robust ==> no_download_in(r.commands@, 0, r.commands@.len() as int),
            coarse_post(*final(self), r, spec_layout(encoding.view()), params.width, params.height),
            final(self).fine_wg_count == Some(
                spec_workgroup_counts(
                    spec_layout(encoding.view()),
                    params.width,
                    params.height,
                ).fine,
            ),
    {
        let ghost v = encoding.view();
        let mut recording = Recording::new();
        let (cpu_config, fine, scene_buf) = stage_upload(&mut recording, encoding, params);
        let ghost cmds_upload = recording.commands@;
        let buffer_sizes = cpu_config.buffer_sizes;
        let wg_counts = cpu_config.workgroup_counts;
        let config_buf = fine.config_buf;
        let info_bin_data_buf = fine.info_bin_data_buf;
        let tile_buf = fine.tile_buf;
        let segments_buf = fine.segments_buf;
        let ptcl_buf = fine.ptcl_buf;
        let bump_buf_raw = match fine.bump_buf {
            ResourceProxy::Buf(b) => b,
            ResourceProxy::Image(_) => {
                proof {
                    assert(false);
                }
                unreached()
            },
        };

        let tagmonoid_buf = stage_pathscan(
            &mut recording,
            shaders,
            &wg_counts,
            &buffer_sizes,
            config_buf,
            scene_buf,
        );
        let ghost cmds_pathscan = recording.commands@;
        let (path_bbox_buf, cubic_buf, draw_monoid_buf, path_to_pattern_buf, clip_bbox_buf) =
            stage_draw_clip(
            &mut recording,
            shaders,
            &wg_counts,
            &buffer_sizes,
            config_buf,
            scene_buf,
            tagmonoid_buf,
            info_bin_data_buf,
        );
        let ghost cmds_draw_clip = recording.commands@;
        stage_tail(
            &mut recording,
            shaders,
            &wg_counts,
            &buffer_sizes,
            &cpu_config.camera_transform,
            robust,
            config_buf,
            scene_buf,
            info_bin_data_buf,
            tile_buf,
            segments_buf,
            ptcl_buf,
            bump_buf_raw,
            tagmonoid_buf,
            path_bbox_buf,
            cubic_buf,
            draw_monoid_buf,
            path_to_pattern_buf,
            clip_bbox_buf,
        );
        self.fine_wg_count = Some(wg_counts.fine);
        self.fine_resources = Some(fine);
        proof {
            // Assemble the four stage sequences into the whole recording.
            let (packed, rows, placements, aw, ah) = choose|packed: Seq<u8>, rows: Seq<
                RampRowView,
            >, placements: Seq<ImagePlacement>, aw: u32, ah: u32|
                {
                    &&& cmds_view(cmds_upload) == spec_upload_cmds(
                        v,
                        *params,
                        packed,
                        rows,
                        placements,
                        aw,
                        ah,
                    )
                    &&& coarse_data_ok(v, packed, rows, placements, aw, ah)
                    &&& fine == spec_fine_struct(
                        spec_layout(v),
                        *params,
                        rows.len(),
                        placements.len(),
                        aw,
                        ah,
                    )
                };
            assert(cmds_view(recording.commands@) =~= spec_coarse_cmds(
                *shaders,
                v,
                *params,
                robust,
                packed,
                rows,
                placements,
                aw,
                ah,
            ));
            // No download sits before the tail's: each earlier stage
            // appended none, and the prefixes carry over verbatim.
            assert forall|i: int| 0 <= i < cmds_draw_clip.len() implies !((
            #[trigger] recording.commands@[i]) is Download) by {
                assert(recording.commands@.subrange(0, cmds_draw_clip.len() as int)
                    == cmds_draw_clip);
                assert(recording.commands@[i] == cmds_draw_clip[i]);
                if i < cmds_pathscan.len() {
                    assert(cmds_draw_clip.subrange(0, cmds_pathscan.len() as int) == cmds_pathscan);
                    assert(cmds_draw_clip[i] == cmds_pathscan[i]);
                    if i < cmds_upload.len() {
                        assert(cmds_pathscan.subrange(0, cmds_upload.len() as int) == cmds_upload);
                        assert(cmds_pathscan[i] == cmds_upload[i]);
                    }
                }
            }
        }
        recording
    }


    /// Records fine rasterization: one dispatch of the fine kernel over
    /// the handoff resources, which are then freed — all but the output
    /// image, which the embedder reads. The contract pins the appended
    /// commands.
    #[verifier::rlimit(100)]
    pub fn record_fine(&mut self, shaders: &FullShaders, recording: &mut Recording)
        requires
            old(recording).inv(),
            old(self).fine_wg_count is Some,
            old(self).fine_resources matches Some(f) && fine_live(f, old(recording).live@)
                && fine_distinct(f),
        ensures
            final(recording).inv(),
            final(self).fine_wg_count is None,
            final(self).fine_resources is None,
            cmds_view(final(recording).commands@) == cmds_view(old(recording).commands@)
                + spec_fine_cmds(
                *shaders,
                old(self).fine_resources->Some_0,
                old(self).fine_wg_count->Some_0,
            ),
            no_download_in(
                final(recording).commands@,
                old(recording).commands@.len() as int,
                final(recording).commands@.len() as int,
            ),
    {
        let fine_wg_count = match self.fine_wg_count {
            Some(w) => w,
            None => {
                proof {
                    assert(false);
                }
                WorkgroupSize { x: 0, y: 0, z: 0 }
            },
        };
        let fine = match &self.fine_resources {
            Some(f) => *f,
            None => {
                proof {
                    assert(false);
                }
                unreached()
            },
        };
        self.fine_wg_count = None;
        recording.dispatch(
            shaders.fine_original,
            fine_wg_count,
            vec![
                fine.config_buf,
                fine.tile_buf,
                fine.segments_buf,
                ResourceProxy::Image(fine.out_image),
                fine.ptcl_buf,
                fine.gradient_image,
                fine.info_bin_data_buf,
                fine.image_atlas,
            ],
        );
        recording.free_resource(fine.config_buf);
        recording.free_resource(fine.tile_buf);
        recording.free_resource(fine.segments_buf);
        recording.free_resource(fine.ptcl_buf);
        recording.free_resource(fine.gradient_image);
        recording.free_resource(fine.image_atlas);
        recording.free_resource(fine.info_bin_data_buf);
        self.fine_resources = None;
        proof {
            let target = spec_fine_cmds(*shaders, fine, fine_wg_count);
            assert(cmds_view(recording.commands@) =~= cmds_view(old(recording).commands@) + target);
            assert forall|i: int|
                old(recording).commands@.len() <= i < recording.commands@.len() implies !((
            #[trigger] recording.commands@[i]) is Download) by {
                assert(cmds_view(recording.commands@)[i] == target[i - old(
                    recording,
                ).commands@.len()]);
                assert(cmd_view_is_download(cmds_view(recording.commands@)[i]) == (
                recording.commands@[i] is Download));
            }
        }
    }

    /// The output image of the render in progress.
    pub fn out_image(&self) -> (r: ImageProxy)
        requires
            self.fine_resources is Some,
        ensures
            r == self.fine_resources->Some_0.out_image,
    {
        match &self.fine_resources {
            Some(f) => f.out_image,
            None => {
                proof {
                    assert(false);
                }
                unreached()
            },
        }
    }

    /// The bump-allocator counter buffer: the same buffer a robust
    /// recording downloads for the overflow readback.
    pub fn bump_buf(&self) -> (r: BufProxy)
        requires
            self.fine_resources matches Some(f) && f.bump_buf is Buf,
        ensures
            self.fine_resources matches Some(f) && r == f.bump_buf->Buf_0,
    {
        match &self.fine_resources {
            Some(f) => match f.bump_buf {
                ResourceProxy::Buf(b) => b,
                ResourceProxy::Image(_) => {
                    proof {
                        assert(false);
                    }
                    unreached()
                },
            },
            None => {
                proof {
                    assert(false);
                }
                unreached()
            },
        }
    }
}

/// The camera uniform: the six transform words.
fn transform_bytes(t: &Transform) -> (r: Vec<u8>)
    ensures
        r@ == spec_transform_bytes(*t),
        r@.len() == 24,
{
    let mut out: Vec<u8> = Vec::new();
    crate::bytes::push_u32_le(&mut out, t.m0);
    crate::bytes::push_u32_le(&mut out, t.m1);
    crate::bytes::push_u32_le(&mut out, t.m2);
    crate::bytes::push_u32_le(&mut out, t.m3);
    crate::bytes::push_u32_le(&mut out, t.t0);
    crate::bytes::push_u32_le(&mut out, t.t1);
    proof {
        assert(out@ =~= spec_transform_bytes(*t));
    }
    out
}

/// Renders a scene: records both phases back to back, without the
/// robust readback.
#[verifier::rlimit(100)]
pub fn render_full(
    scene: &crate::scene::Scene,
    shaders: &FullShaders,
    params: &RenderParams,
) -> (r: (Recording, ResourceProxy))
    requires
        renderable(scene.data),
        params.width <= 0xFFFF,
        params.height <= 0xFFFF,
    ensures
        r.0.inv(),
        full_render_post(r, *shaders, scene.data.view(), *params),
{
    render_encoding_full(&scene.data, shaders, params)
}

/// What the one-call render promises: the recording is the coarse
/// sequence followed by the fine sequence, it holds no download, and
/// the returned proxy is the output image of the viewport extent.
pub open spec fn full_render_post(
    r: (Recording, ResourceProxy),
    shaders: FullShaders,
    v: crate::encoding::EncodingView,
    params: RenderParams,
) -> bool {
    let l = spec_layout(v);
    &&& r.1 == ResourceProxy::Image(
        ImageProxy { id: 9, width: params.width, height: params.height },
    )
    &&& no_download_in(r.0.commands@, 0, r.0.commands@.len() as int)
    &&& exists|packed: Seq<u8>, rows: Seq<RampRowView>, placements: Seq<ImagePlacement>, aw: u32, ah: u32|
        {
            &&& cmds_view(r.0.commands@) == spec_coarse_cmds(
                shaders,
                v,
                params,
                false,
                packed,
                rows,
                placements,
                aw,
                ah,
            ) + spec_fine_cmds(
                shaders,
                spec_fine_struct(l, params, rows.len(), placements.len(), aw, ah),
                spec_workgroup_counts(l, params.width, params.height).fine,
            )
            &&& coarse_data_ok(v, packed, rows, placements, aw, ah)
        }
}

/// Records both phases back to back, without the robust readback, and
/// returns the recording together with the output image: equivalent to
/// coarse recording followed by fine recording on a fresh render.
#[verifier::rlimit(100)]
pub fn render_encoding_full(
    encoding: &Encoding,
    shaders: &FullShaders,
    params: &RenderParams,
) -> (r: (Recording, ResourceProxy))
    requires
        renderable(*encoding),
        params.width <= 0xFFFF,
        params.height <= 0xFFFF,
    ensures
        r.0.inv(),
        full_render_post(r, *shaders, encoding.view(), *params),
{
    let mut render = Render::new();
    let mut recording = render.render_encoding_coarse(encoding, shaders, params, false);
    let ghost coarse_cmds = recording.commands@;
    let ghost fine_res = render.fine_resources->Some_0;
    let ghost fine_wg = render.fine_wg_count->Some_0;
    let out_image = render.out_image();
    render.record_fine(shaders, &mut recording);
    proof {
        let v = encoding.view();
        let l = spec_layout(v);
        let (packed, rows, placements, aw, ah) = choose|packed: Seq<u8>, rows: Seq<
            RampRowView,
        >, placements: Seq<ImagePlacement>, aw: u32, ah: u32|
            {
                &&& cmds_view(coarse_cmds) == spec_coarse_cmds(
                    *shaders,
                    v,
                    *params,
                    false,
                    packed,
                    rows,
                    placements,
                    aw,
                    ah,
                )
                &&& coarse_data_ok(v, packed, rows, placements, aw, ah)
                &&& Some(fine_res) == Some(
                    spec_fine_struct(l, *params, rows.len(), placements.len(), aw, ah),
                )
            };
        assert(cmds_view(recording.commands@) =~= spec_coarse_cmds(
            *shaders,
            v,
            *params,
            false,
            packed,
            rows,
            placements,
            aw,
            ah,
        ) + spec_fine_cmds(
            *shaders,
            spec_fine_struct(l, *params, rows.len(), placements.len(), aw, ah),
            spec_workgroup_counts(l, params.width, params.height).fine,
        ));
        // No download anywhere: the coarse prefix carries none and the
        // fine suffix appends none.
        assert forall|i: int| 0 <= i < recording.commands@.len() implies !((
        #[trigger] recording.commands@[i]) is Download) by {
            if i < coarse_cmds.len() {
                assert(cmds_view(recording.commands@)[i] == cmds_view(coarse_cmds)[i]);
                assert(cmd_view(recording.commands@[i]) == cmd_view(coarse_cmds[i]));
                assert(!(coarse_cmds[i] is Download));
                assert(cmd_view_is_download(cmd_view(coarse_cmds[i])) == (coarse_cmds[i]
                    is Download));
                assert(cmd_view_is_download(cmd_view(recording.commands@[i])) == (
                recording.commands@[i] is Download));
            }
        }
    }
    (recording, ResourceProxy::Image(out_image))
}

} // verus!
