//! Config sizing: workgroup dispatch counts for every pipeline stage and
//! conservative byte sizes for every data-dependent intermediate buffer,
//! all computed ahead of time from the layout's element counts.

use crate::bytes::{push_u32_le, spec_u32_le};
use crate::engine::WorkgroupSize;
use crate::math::Transform;
use crate::resolve::Layout;
use crate::{div_ceil, spec_div_ceil};
use vstd::prelude::*;

verus! {

/// Width of a rasterization tile in pixels.
pub const TILE_WIDTH: u32 = 16;

/// Height of a rasterization tile in pixels.
pub const TILE_HEIGHT: u32 = 16;

/// Workgroup width of the path-tag reduce and scan stages.
pub const PATH_REDUCE_WG: u32 = 256;

/// Workgroup width of the bounding-box and draw-object stages.
pub const PATH_BBOX_WG: u32 = 256;

/// Workgroup width of the per-segment stages.
pub const PATH_COARSE_WG: u32 = 256;

/// Workgroup width of the clip stages.
pub const CLIP_REDUCE_WG: u32 = 256;

/// A buffer size: an element count and the byte size it amounts to.
#[derive(Clone, Copy, PartialEq, Eq, Structural, Debug)]
pub struct BufferSize {
    /// Number of elements.
    pub len: u64,
    /// Total size in bytes.
    pub size_bytes: u64,
}

impl BufferSize {
    /// A buffer of `len` elements of `elem_bytes` bytes each; at least
    /// one element is kept so that a zero-sized binding never arises.
    pub fn new(len: u64, elem_bytes: u64) -> (r: BufferSize)
        requires
            len <= 0xFFFF_FFFF,
            1 <= elem_bytes <= 1024,
        ensures
            r == spec_buffer_size(len, elem_bytes),
    {
        let clamped = if len == 0 {
            1u64
        } else {
            len
        };
        proof {
            assert(clamped * elem_bytes <= 0xFFFF_FFFFu64 * 1024) by (nonlinear_arith)
                requires
                    1 <= clamped <= 0xFFFF_FFFF && 1 <= elem_bytes <= 1024,
            ;
        }
        BufferSize { len: clamped, size_bytes: clamped * elem_bytes }
    }

    /// Total size in bytes.
    pub fn size_in_bytes(&self) -> (r: u64)
        ensures
            r == self.size_bytes,
    {
        self.size_bytes
    }
}

/// The buffer size for `len` elements of `elem_bytes` bytes.
pub open spec fn spec_buffer_size(len: u64, elem_bytes: u64) -> BufferSize {
    let clamped = if len == 0 {
        1u64
    } else {
        len
    };
    BufferSize { len: clamped, size_bytes: (clamped * elem_bytes) as u64 }
}

/// Sizes of every intermediate buffer the pipeline allocates.
#[derive(Clone, Copy, PartialEq, Eq, Structural, Debug)]
pub struct BufferSizes {
    /// First-level path-tag reduction outputs.
    pub path_reduced: BufferSize,
    /// Second-level path-tag reduction outputs.
    pub path_reduced2: BufferSize,
    /// Scanned first-level reduction outputs.
    pub path_reduced_scan: BufferSize,
    /// Per-tag path monoids.
    pub path_monoids: BufferSize,
    /// Per-path bounding boxes.
    pub path_bboxes: BufferSize,
    /// Flattened cubic segments.
    pub cubics: BufferSize,
    /// Draw-tag reduction outputs.
    pub draw_reduced: BufferSize,
    /// Per-draw-object monoids.
    pub draw_monoids: BufferSize,
    /// Per-bin data region (bump allocated).
    pub bin_data: BufferSize,
    /// Clip-stack inputs.
    pub clip_inps: BufferSize,
    /// Clip-stack elements.
    pub clip_els: BufferSize,
    /// Clip bicyclic-semigroup reductions.
    pub clip_bics: BufferSize,
    /// Per-clip bounding boxes.
    pub clip_bboxes: BufferSize,
    /// Per-draw-object bounding boxes.
    pub draw_bboxes: BufferSize,
    /// Bump-allocator counters.
    pub bump_alloc: BufferSize,
    /// Indirect dispatch counts.
    pub indirect_count: BufferSize,
    /// Per-bin headers.
    pub bin_headers: BufferSize,
    /// Per-path tile metadata.
    pub paths: BufferSize,
    /// Path-to-pattern mapping.
    pub path_to_pattern: BufferSize,
    /// Pattern-generated line segments.
    pub lines: BufferSize,
    /// The tile arena (bump allocated).
    pub tiles: BufferSize,
    /// The segment arena (bump allocated).
    pub segments: BufferSize,
    /// The per-tile command lists (bump allocated).
    pub ptcl: BufferSize,
}

/// Workgroup counts for every pipeline stage.
#[derive(Clone, Copy, PartialEq, Eq, Structural, Debug)]
pub struct WorkgroupCounts {
    /// Whether the path-tag scan needs a third level.
    pub use_large_path_scan: bool,
    /// Whether the conditional pattern pass runs.
    pub use_patterns: bool,
    /// Path-tag reduce.
    pub path_reduce: WorkgroupSize,
    /// Second-level path-tag reduce.
    pub path_reduce2: WorkgroupSize,
    /// First-level scan of the large path-tag scan.
    pub path_scan1: WorkgroupSize,
    /// Path-tag scan.
    pub path_scan: WorkgroupSize,
    /// Bounding-box clear.
    pub bbox_clear: WorkgroupSize,
    /// Per-segment path expansion.
    pub path_seg: WorkgroupSize,
    /// Draw-tag reduce.
    pub draw_reduce: WorkgroupSize,
    /// Draw-leaf expansion.
    pub draw_leaf: WorkgroupSize,
    /// Clip reduce.
    pub clip_reduce: WorkgroupSize,
    /// Clip leaf.
    pub clip_leaf: WorkgroupSize,
    /// Binning.
    pub binning: WorkgroupSize,
    /// Tile allocation.
    pub tile_alloc: WorkgroupSize,
    /// Path-coarse rasterization.
    pub path_coarse: WorkgroupSize,
    /// Backdrop propagation.
    pub backdrop: WorkgroupSize,
    /// Coarse compositing.
    pub coarse: WorkgroupSize,
    /// Fine rasterization.
    pub fine: WorkgroupSize,
}

/// A layout whose counts are small enough for the sizing arithmetic.
pub open spec fn layout_bounded(l: Layout) -> bool {
    &&& l.n_draw_objects < 0x100_0000
    &&& l.n_paths < 0x100_0000
    &&& l.n_clips < 0x100_0000
    &&& l.path_data_base < 0x100_0000
}

/// One workgroup dimension per ceiling division, the rest 1.
pub open spec fn spec_wg(n: nat, d: nat) -> WorkgroupSize {
    WorkgroupSize { x: spec_div_ceil(n, d) as u32, y: 1, z: 1 }
}

/// The workgroup counts of every stage: each is the ceiling division of
/// its input element count by its stage's workgroup width. The fine
/// stage runs one workgroup per tile; the large path scan engages when
/// one scan level cannot cover the tag stream.
pub open spec fn spec_workgroup_counts(l: Layout, width: u32, height: u32) -> WorkgroupCounts {
    let n_path_tags = 4 * l.path_data_base as nat;
    let path_tag_wgs = spec_div_ceil(n_path_tags, (4 * PATH_REDUCE_WG) as nat);
    let use_large_path_scan = path_tag_wgs > PATH_REDUCE_WG;
    let width_in_tiles = spec_div_ceil(width as nat, TILE_WIDTH as nat);
    let height_in_tiles = spec_div_ceil(height as nat, TILE_HEIGHT as nat);
    WorkgroupCounts {
        use_large_path_scan,
        use_patterns: l.n_patterns > 0,
        path_reduce: WorkgroupSize { x: path_tag_wgs as u32, y: 1, z: 1 },
        path_reduce2: spec_wg(path_tag_wgs, PATH_REDUCE_WG as nat),
        path_scan1: spec_wg(path_tag_wgs, PATH_REDUCE_WG as nat),
        path_scan: WorkgroupSize { x: path_tag_wgs as u32, y: 1, z: 1 },
        bbox_clear: spec_wg(l.n_paths as nat, PATH_BBOX_WG as nat),
        path_seg: spec_wg(n_path_tags, PATH_COARSE_WG as nat),
        draw_reduce: spec_wg(l.n_draw_objects as nat, PATH_BBOX_WG as nat),
        draw_leaf: spec_wg(l.n_draw_objects as nat, PATH_BBOX_WG as nat),
        clip_reduce: WorkgroupSize {
            x: (if l.n_clips > 0 {
                ((l.n_clips - 1) as nat / CLIP_REDUCE_WG as nat)
            } else {
                0
            }) as u32,
            y: 1,
            z: 1,
        },
        clip_leaf: spec_wg(l.n_clips as nat, CLIP_REDUCE_WG as nat),
        binning: spec_wg(l.n_draw_objects as nat, PATH_BBOX_WG as nat),
        tile_alloc: spec_wg(l.n_paths as nat, PATH_BBOX_WG as nat),
        path_coarse: spec_wg(n_path_tags, PATH_COARSE_WG as nat),
        backdrop: spec_wg(l.n_paths as nat, PATH_BBOX_WG as nat),
        coarse: WorkgroupSize {
            x: spec_div_ceil(width_in_tiles, 16) as u32,
            y: spec_div_ceil(height_in_tiles, 16) as u32,
            z: 1,
        },
        fine: WorkgroupSize { x: width_in_tiles as u32, y: height_in_tiles as u32, z: 1 },
    }
}

/// The buffer sizes. Exactly sized buffers follow their element counts;
/// the bump-allocated arenas (bins, tiles, segments, per-tile command
/// lists) use conservative per-element multipliers plus a viewport term,
/// tunable upper bounds whose underestimation the robust-mode retry
/// protocol detects and corrects.
pub open spec fn spec_buffer_sizes(l: Layout, width: u32, height: u32) -> BufferSizes {
    let n_path_tags = 4 * l.path_data_base as nat;
    let path_tag_wgs = spec_div_ceil(n_path_tags, (4 * PATH_REDUCE_WG) as nat);
    let width_in_tiles = spec_div_ceil(width as nat, TILE_WIDTH as nat);
    let height_in_tiles = spec_div_ceil(height as nat, TILE_HEIGHT as nat);
    let n_tiles = width_in_tiles * height_in_tiles;
    BufferSizes {
        path_reduced: spec_buffer_size(path_tag_wgs as u64, 16),
        path_reduced2: spec_buffer_size(PATH_REDUCE_WG as u64, 16),
        path_reduced_scan: spec_buffer_size(path_tag_wgs as u64, 16),
        path_monoids: spec_buffer_size((4 * path_tag_wgs * PATH_REDUCE_WG as nat) as u64, 16),
        path_bboxes: spec_buffer_size(l.n_paths as u64, 24),
        cubics: spec_buffer_size((n_path_tags) as u64, 40),
        draw_reduced: spec_buffer_size(
            spec_div_ceil(l.n_draw_objects as nat, PATH_BBOX_WG as nat) as u64,
            8,
        ),
        draw_monoids: spec_buffer_size(l.n_draw_objects as u64, 16),
        bin_data: spec_buffer_size((64 * l.n_draw_objects as nat + 0x1_0000) as u64, 4),
        clip_inps: spec_buffer_size(l.n_clips as u64, 4),
        clip_els: spec_buffer_size(l.n_clips as u64, 20),
        clip_bics: spec_buffer_size(
            spec_div_ceil(l.n_clips as nat, CLIP_REDUCE_WG as nat) as u64,
            8,
        ),
        clip_bboxes: spec_buffer_size(l.n_clips as u64, 16),
        draw_bboxes: spec_buffer_size(l.n_draw_objects as u64, 16),
        bump_alloc: spec_buffer_size(1, 24),
        indirect_count: spec_buffer_size(1, 12),
        bin_headers: spec_buffer_size(
            (spec_div_ceil(l.n_draw_objects as nat, PATH_BBOX_WG as nat) * 256) as u64,
            8,
        ),
        paths: spec_buffer_size(l.n_paths as u64, 32),
        path_to_pattern: spec_buffer_size(l.n_paths as u64, 4),
        lines: spec_buffer_size((16 * l.n_paths as nat + 0x1_0000) as u64, 16),
        tiles: spec_buffer_size((n_tiles + 64 * l.n_paths as nat) as u64, 8),
        segments: spec_buffer_size((16 * n_path_tags + 0x1_0000) as u64, 24),
        ptcl: spec_buffer_size((16 * l.n_draw_objects as nat + 8 * n_tiles + 0x1000) as u64, 4),
    }
}

/// The uniform configuration words the kernels read: viewport extent in
/// tiles and pixels, background color, bump-arena capacities, and the
/// layout of the packed scene buffer.
#[derive(Clone, Copy, PartialEq, Eq, Structural, Debug)]
pub struct GpuConfig {
    /// Viewport width in tiles.
    pub width_in_tiles: u32,
    /// Viewport height in tiles.
    pub height_in_tiles: u32,
    /// Viewport width in pixels.
    pub target_width: u32,
    /// Viewport height in pixels.
    pub target_height: u32,
    /// Packed background color.
    pub base_color: u32,
    /// Capacity of the bin-data arena, in elements.
    pub binning_size: u32,
    /// Capacity of the tile arena, in elements.
    pub tiles_size: u32,
    /// Capacity of the segment arena, in elements.
    pub segments_size: u32,
    /// Capacity of the per-tile command lists, in words.
    pub ptcl_size: u32,
    /// Layout of the packed scene buffer.
    pub layout: Layout,
}

impl GpuConfig {
    /// The uniform bytes, little endian, fields in declaration order and
    /// the layout's words after them.
    pub open spec fn spec_bytes(self) -> Seq<u8> {
        spec_u32_le(self.width_in_tiles) + spec_u32_le(self.height_in_tiles) + spec_u32_le(
            self.target_width,
        ) + spec_u32_le(self.target_height) + spec_u32_le(self.base_color) + spec_u32_le(
            self.binning_size,
        ) + spec_u32_le(self.tiles_size) + spec_u32_le(self.segments_size) + spec_u32_le(
            self.ptcl_size,
        ) + spec_u32_le(self.layout.n_draw_objects) + spec_u32_le(self.layout.n_paths)
            + spec_u32_le(self.layout.n_clips) + spec_u32_le(self.layout.n_patterns) + spec_u32_le(
            self.layout.path_tag_base,
        ) + spec_u32_le(self.layout.path_data_base) + spec_u32_le(self.layout.draw_tag_base)
            + spec_u32_le(self.layout.draw_data_base) + spec_u32_le(self.layout.transform_base)
            + spec_u32_le(self.layout.linewidth_base) + spec_u32_le(self.layout.dasharray_base)
            + spec_u32_le(self.layout.pattern_base) + spec_u32_le(self.layout.size_in_words)
    }

    /// Serializes the uniform.
    pub fn to_bytes(&self) -> (r: Vec<u8>)
        ensures
            r@ == self.spec_bytes(),
    {
        let mut out: Vec<u8> = Vec::new();
        push_u32_le(&mut out, self.width_in_tiles);
        push_u32_le(&mut out, self.height_in_tiles);
        push_u32_le(&mut out, self.target_width);
        push_u32_le(&mut out, self.target_height);
        push_u32_le(&mut out, self.base_color);
        push_u32_le(&mut out, self.binning_size);
        push_u32_le(&mut out, self.tiles_size);
        push_u32_le(&mut out, self.segments_size);
        push_u32_le(&mut out, self.ptcl_size);
        push_u32_le(&mut out, self.layout.n_draw_objects);
        push_u32_le(&mut out, self.layout.n_paths);
        push_u32_le(&mut out, self.layout.n_clips);
        push_u32_le(&mut out, self.layout.n_patterns);
        push_u32_le(&mut out, self.layout.path_tag_base);
        push_u32_le(&mut out, self.layout.path_data_base);
        push_u32_le(&mut out, self.layout.draw_tag_base);
        push_u32_le(&mut out, self.layout.draw_data_base);
        push_u32_le(&mut out, self.layout.transform_base);
        push_u32_le(&mut out, self.layout.linewidth_base);
        push_u32_le(&mut out, self.layout.dasharray_base);
        push_u32_le(&mut out, self.layout.pattern_base);
        push_u32_le(&mut out, self.layout.size_in_words);
        proof {
            assert(out@ =~= self.spec_bytes());
        }
        out
    }
}

/// The uniform configuration of one render, as a spec value.
pub open spec fn spec_gpu_config(l: Layout, width: u32, height: u32, base_color: u32) -> GpuConfig {
    let sizes = spec_buffer_sizes(l, width, height);
    GpuConfig {
        width_in_tiles: spec_div_ceil(width as nat, TILE_WIDTH as nat) as u32,
        height_in_tiles: spec_div_ceil(height as nat, TILE_HEIGHT as nat) as u32,
        target_width: width,
        target_height: height,
        base_color,
        binning_size: sizes.bin_data.len as u32,
        tiles_size: sizes.tiles.len as u32,
        segments_size: sizes.segments.len as u32,
        ptcl_size: sizes.ptcl.len as u32,
        layout: l,
    }
}

/// The camera transform of one render: the recorded one, or identity.
pub open spec fn spec_camera(camera_transform: Option<Transform>) -> Transform {
    match camera_transform {
        Some(t) => t,
        None => Transform::spec_identity(),
    }
}

/// The CPU-side configuration of one render: the uniform for the
/// kernels, the workgroup counts, the buffer sizes, and the camera
/// transform the pattern pass reads.
#[derive(Clone, Copy, Debug)]
pub struct RenderConfig {
    /// The uniform configuration.
    pub gpu: GpuConfig,
    /// Workgroup counts per stage.
    pub workgroup_counts: WorkgroupCounts,
    /// Intermediate buffer sizes.
    pub buffer_sizes: BufferSizes,
    /// The camera transform; identity when none was recorded.
    pub camera_transform: Transform,
}

impl RenderConfig {
    /// Computes the full configuration from the layout's element counts
    /// and the viewport.
    pub fn new(
        layout: &Layout,
        width: u32,
        height: u32,
        base_color: u32,
        camera_transform: Option<Transform>,
    ) -> (r: RenderConfig)
        requires
            layout_bounded(*layout),
            width <= 0xFFFF,
            height <= 0xFFFF,
        ensures
            r.workgroup_counts == spec_workgroup_counts(*layout, width, height),
            r.buffer_sizes == spec_buffer_sizes(*layout, width, height),
            r.gpu == spec_gpu_config(*layout, width, height, base_color),
            r.camera_transform == spec_camera(camera_transform),
    {
        let n_path_tags = 4 * layout.path_data_base;
        let path_tag_wgs = div_ceil(n_path_tags, 4 * PATH_REDUCE_WG);
        let use_large_path_scan = path_tag_wgs > PATH_REDUCE_WG;
        let width_in_tiles = div_ceil(width, TILE_WIDTH);
        let height_in_tiles = div_ceil(height, TILE_HEIGHT);
        proof {
            assert(width_in_tiles <= 0x1000);
            assert(height_in_tiles <= 0x1000);
            assert(path_tag_wgs <= 0x1_0000);
            assert((width_in_tiles as u64) * (height_in_tiles as u64) <= 0x100_0000)
                by (nonlinear_arith)
                requires
                    width_in_tiles <= 0x1000 && height_in_tiles <= 0x1000,
            ;
        }
        let n_tiles: u64 = (width_in_tiles as u64) * (height_in_tiles as u64);
        let workgroup_counts = WorkgroupCounts {
            use_large_path_scan,
            use_patterns: layout.n_patterns > 0,
            path_reduce: WorkgroupSize { x: path_tag_wgs, y: 1, z: 1 },
            path_reduce2: WorkgroupSize { x: div_ceil(path_tag_wgs, PATH_REDUCE_WG), y: 1, z: 1 },
            path_scan1: WorkgroupSize { x: div_ceil(path_tag_wgs, PATH_REDUCE_WG), y: 1, z: 1 },
            path_scan: WorkgroupSize { x: path_tag_wgs, y: 1, z: 1 },
            bbox_clear: WorkgroupSize { x: div_ceil(layout.n_paths, PATH_BBOX_WG), y: 1, z: 1 },
            path_seg: WorkgroupSize { x: div_ceil(n_path_tags, PATH_COARSE_WG), y: 1, z: 1 },
            draw_reduce: WorkgroupSize {
                x: div_ceil(layout.n_draw_objects, PATH_BBOX_WG),
                y: 1,
                z: 1,
            },
            draw_leaf: WorkgroupSize {
                x: div_ceil(layout.n_draw_objects, PATH_BBOX_WG),
                y: 1,
                z: 1,
            },
            clip_reduce: WorkgroupSize {
                x: if layout.n_clips > 0 {
                    (layout.n_clips - 1) / CLIP_REDUCE_WG
                } else {
                    0
                },
                y: 1,
                z: 1,
            },
            clip_leaf: WorkgroupSize { x: div_ceil(layout.n_clips, CLIP_REDUCE_WG), y: 1, z: 1 },
            binning: WorkgroupSize {
                x: div_ceil(layout.n_draw_objects, PATH_BBOX_WG),
                y: 1,
                z: 1,
            },
            tile_alloc: WorkgroupSize { x: div_ceil(layout.n_paths, PATH_BBOX_WG), y: 1, z: 1 },
            path_coarse: WorkgroupSize { x: div_ceil(n_path_tags, PATH_COARSE_WG), y: 1, z: 1 },
            backdrop: WorkgroupSize { x: div_ceil(layout.n_paths, PATH_BBOX_WG), y: 1, z: 1 },
            coarse: WorkgroupSize {
                x: div_ceil(width_in_tiles, 16),
                y: div_ceil(height_in_tiles, 16),
                z: 1,
            },
            fine: WorkgroupSize { x: width_in_tiles, y: height_in_tiles, z: 1 },
        };
        let buffer_sizes = BufferSizes {
            path_reduced: BufferSize::new(path_tag_wgs as u64, 16),
            path_reduced2: BufferSize::new(PATH_REDUCE_WG as u64, 16),
            path_reduced_scan: BufferSize::new(path_tag_wgs as u64, 16),
            path_monoids: BufferSize::new(4 * (path_tag_wgs as u64) * (PATH_REDUCE_WG as u64), 16),
            path_bboxes: BufferSize::new(layout.n_paths as u64, 24),
            cubics: BufferSize::new(n_path_tags as u64, 40),
            draw_reduced: BufferSize::new(
                div_ceil(layout.n_draw_objects, PATH_BBOX_WG) as u64,
                8,
            ),
            draw_monoids: BufferSize::new(layout.n_draw_objects as u64, 16),
            bin_data: BufferSize::new(64 * (layout.n_draw_objects as u64) + 0x1_0000, 4),
            clip_inps: BufferSize::new(layout.n_clips as u64, 4),
            clip_els: BufferSize::new(layout.n_clips as u64, 20),
            clip_bics: BufferSize::new(div_ceil(layout.n_clips, CLIP_REDUCE_WG) as u64, 8),
            clip_bboxes: BufferSize::new(layout.n_clips as u64, 16),
            draw_bboxes: BufferSize::new(layout.n_draw_objects as u64, 16),
            bump_alloc: BufferSize::new(1, 24),
            indirect_count: BufferSize::new(1, 12),
            bin_headers: BufferSize::new(
                (div_ceil(layout.n_draw_objects, PATH_BBOX_WG) as u64) * 256,
                8,
            ),
            paths: BufferSize::new(layout.n_paths as u64, 32),
            path_to_pattern: BufferSize::new(layout.n_paths as u64, 4),
            lines: BufferSize::new(16 * (layout.n_paths as u64) + 0x1_0000, 16),
            tiles: BufferSize::new(n_tiles + 64 * (layout.n_paths as u64), 8),
            segments: BufferSize::new(16 * (n_path_tags as u64) + 0x1_0000, 24),
            ptcl: BufferSize::new(
                16 * (layout.n_draw_objects as u64) + 8 * n_tiles + 0x1000,
                4,
            ),
        };
        let gpu = GpuConfig {
            width_in_tiles,
            height_in_tiles,
            target_width: width,
            target_height: height,
            base_color,
            binning_size: buffer_sizes.bin_data.len as u32,
            tiles_size: buffer_sizes.tiles.len as u32,
            segments_size: buffer_sizes.segments.len as u32,
            ptcl_size: buffer_sizes.ptcl.len as u32,
            layout: *layout,
        };
        let camera = match camera_transform {
            Some(t) => t,
            None => Transform::identity(),
        };
        RenderConfig { gpu, workgroup_counts, buffer_sizes, camera_transform: camera }
    }
}

/// The bump-allocator counters the coarse phase writes and robust mode
/// reads back: how much of each arena the scene actually needed.
#[derive(Clone, Copy, PartialEq, Eq, Structural, Debug)]
pub struct BumpAllocators {
    /// Non-zero when a kernel detected an overflow on device.
    pub failed: u32,
    /// Elements claimed from the bin-data arena.
    pub binning: u32,
    /// Words claimed from the per-tile command lists.
    pub ptcl: u32,
    /// Elements claimed from the tile arena.
    pub tile: u32,
    /// Elements claimed from the segment arena.
    pub segments: u32,
    /// Blend-stack slots claimed.
    pub blend: u32,
}

/// Whether any counter exceeds what was allocated.
pub open spec fn spec_overflowed(b: BumpAllocators, s: BufferSizes) -> bool {
    ||| b.failed != 0
    ||| b.binning as u64 > s.bin_data.len
    ||| b.ptcl as u64 > s.ptcl.len
    ||| b.tile as u64 > s.tiles.len
    ||| b.segments as u64 > s.segments.len
}

impl BumpAllocators {
    /// Reports whether the coarse phase overflowed any arena.
    pub fn overflowed(&self, sizes: &BufferSizes) -> (r: bool)
        ensures
            r == spec_overflowed(*self, *sizes),
    {
        self.failed != 0 || (self.binning as u64) > sizes.bin_data.len || (self.ptcl as u64)
            > sizes.ptcl.len || (self.tile as u64) > sizes.tiles.len || (self.segments as u64)
            > sizes.segments.len
    }

    /// Buffer sizes corrected by the readback: every arena grows to at
    /// least what the scene was measured to need, so a second coarse
    /// pass with these sizes cannot overflow on the same scene.
    pub fn corrected(&self, sizes: &BufferSizes) -> (r: BufferSizes)
        ensures
            r == spec_corrected(*self, *sizes),
            r.bin_data.len >= self.binning,
            r.ptcl.len >= self.ptcl,
            r.tiles.len >= self.tile,
            r.segments.len >= self.segments,
    {
        let mut r = *sizes;
        if (self.binning as u64) > r.bin_data.len {
            r.bin_data = BufferSize::new(self.binning as u64, 4);
        }
        if (self.ptcl as u64) > r.ptcl.len {
            r.ptcl = BufferSize::new(self.ptcl as u64, 4);
        }
        if (self.tile as u64) > r.tiles.len {
            r.tiles = BufferSize::new(self.tile as u64, 8);
        }
        if (self.segments as u64) > r.segments.len {
            r.segments = BufferSize::new(self.segments as u64, 24);
        }
        r
    }
}

/// The corrected sizes after an overflow readback.
pub open spec fn spec_corrected(b: BumpAllocators, s: BufferSizes) -> BufferSizes {
    let s1 = if b.binning as u64 > s.bin_data.len {
        BufferSizes { bin_data: spec_buffer_size(b.binning as u64, 4), ..s }
    } else {
        s
    };
    let s2 = if b.ptcl as u64 > s1.ptcl.len {
        BufferSizes { ptcl: spec_buffer_size(b.ptcl as u64, 4), ..s1 }
    } else {
        s1
    };
    let s3 = if b.tile as u64 > s2.tiles.len {
        BufferSizes { tiles: spec_buffer_size(b.tile as u64, 8), ..s2 }
    } else {
        s2
    };
    if b.segments as u64 > s3.segments.len {
        BufferSizes { segments: spec_buffer_size(b.segments as u64, 24), ..s3 }
    } else {
        s3
    }
}

/// The retry protocol is sound: once the device reports no hard failure,
/// the corrected sizes admit every measured counter, so re-running the
/// coarse phase on the same scene cannot overflow again.
pub proof fn lemma_overflow_retry(b: BumpAllocators, s: BufferSizes)
    requires
        b.failed == 0,
    ensures
        !spec_overflowed(b, spec_corrected(b, s)),
{
}

} // verus!
